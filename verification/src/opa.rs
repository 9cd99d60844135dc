//! The OPA backend's layout: every relation tuple is a fact stored at a data
//! path whose segments are JSON-Pointer encoded.

use vstd::prelude::*;

use crate::authz::{AccessTuple, AuthzCall, CallBody, HttpMethod};
use crate::text::push_char;

verus! {

/// One character as JSON Pointer writes it inside a segment: `~` becomes
/// `~0`, `/` becomes `~1`, anything else stays.
pub open spec fn encode_char(c: char) -> Seq<char> {
    if c == '~' {
        seq!['~', '0']
    } else if c == '/' {
        seq!['~', '1']
    } else {
        seq![c]
    }
}

/// A text as a JSON Pointer segment.
pub open spec fn pointer_encode(s: Seq<char>) -> Seq<char>
    decreases s.len(),
{
    if s.len() == 0 {
        seq![]
    } else {
        encode_char(s[0]) + pointer_encode(s.drop_first())
    }
}

proof fn lemma_encode_push(s: Seq<char>, c: char)
    ensures
        pointer_encode(s.push(c)) == pointer_encode(s) + encode_char(c),
    decreases s.len(),
{
    if s.len() == 0 {
        assert(s.push(c).drop_first() =~= Seq::<char>::empty());
        assert(pointer_encode(Seq::<char>::empty()) == Seq::<char>::empty());
        assert(s.push(c)[0] == c);
        assert(pointer_encode(s.push(c)) =~= encode_char(c));
        assert(pointer_encode(s) == Seq::<char>::empty());
    } else {
        assert(s.push(c).drop_first() =~= s.drop_first().push(c));
        lemma_encode_push(s.drop_first(), c);
        assert(pointer_encode(s.push(c)) =~= pointer_encode(s) + encode_char(c));
    }
}

/// An encoded segment never holds `/`, so the segments of a path stay apart.
pub proof fn lemma_encode_has_no_slash(s: Seq<char>)
    ensures
        forall|i: int| 0 <= i < pointer_encode(s).len() ==> pointer_encode(s)[i] != '/',
    decreases s.len(),
{
    if s.len() > 0 {
        lemma_encode_has_no_slash(s.drop_first());
        let e = encode_char(s[0]);
        let rest = pointer_encode(s.drop_first());
        assert forall|i: int| 0 <= i < pointer_encode(s).len() implies pointer_encode(s)[i]
            != '/' by {
            if i >= e.len() {
                assert(pointer_encode(s)[i] == rest[i - e.len()]);
            }
        }
    }
}

/// Different texts encode to different segments, so a segment names the
/// text it came from.
pub proof fn lemma_encode_injective(a: Seq<char>, b: Seq<char>)
    ensures
        pointer_encode(a) == pointer_encode(b) ==> a == b,
    decreases a.len() + b.len(),
{
    if pointer_encode(a) == pointer_encode(b) {
        if a.len() == 0 || b.len() == 0 {
            if a.len() != 0 {
                assert(pointer_encode(a).len() > 0);
            }
            if b.len() != 0 {
                assert(pointer_encode(b).len() > 0);
            }
            assert(a =~= b);
        } else {
            let ea = encode_char(a[0]);
            let eb = encode_char(b[0]);
            let p = pointer_encode(a);
            assert(p == ea + pointer_encode(a.drop_first()));
            assert(p == eb + pointer_encode(b.drop_first()));
            assert(p[0] == ea[0]);
            assert(p[0] == eb[0]);
            if ea.len() == 2 {
                assert(p[1] == ea[1]);
            }
            if eb.len() == 2 {
                assert(p[1] == eb[1]);
            }
            assert(a[0] == b[0]);
            assert(pointer_encode(a.drop_first()) =~= p.skip(ea.len() as int));
            assert(pointer_encode(b.drop_first()) =~= p.skip(eb.len() as int));
            lemma_encode_injective(a.drop_first(), b.drop_first());
            assert(a =~= seq![a[0]] + a.drop_first());
            assert(b =~= seq![b[0]] + b.drop_first());
        }
    }
}

/// Encoding changes only `~` and `/`: a text that holds neither is its own
/// encoding, and every other character of any text passes through in place.
pub proof fn law_encode_keeps_plain_text(s: Seq<char>)
    ensures
        (forall|i: int| 0 <= i < s.len() ==> s[i] != '~' && s[i] != '/') ==> pointer_encode(s)
            == s,
        forall|c: char| c != '~' && c != '/' ==> pointer_encode(seq![c]) == seq![c],
    decreases s.len(),
{
    if s.len() > 0 {
        law_encode_keeps_plain_text(s.drop_first());
        if forall|i: int| 0 <= i < s.len() ==> s[i] != '~' && s[i] != '/' {
            assert(s[0] != '~' && s[0] != '/');
            assert forall|i: int| 0 <= i < s.drop_first().len() implies s.drop_first()[i] != '~'
                && s.drop_first()[i] != '/' by {
                assert(s.drop_first()[i] == s[i + 1]);
            }
            assert(pointer_encode(s) =~= s);
        }
    }
    assert forall|c: char| c != '~' && c != '/' implies pointer_encode(seq![c]) == seq![c] by {
        assert(seq![c].drop_first() =~= Seq::<char>::empty());
        assert(seq![c][0] == c);
        assert(pointer_encode(Seq::<char>::empty()) == Seq::<char>::empty());
        assert(encode_char(c) == seq![c]);
        assert(pointer_encode(seq![c]) == encode_char(c) + pointer_encode(Seq::<char>::empty()));
        assert(pointer_encode(seq![c]) =~= seq![c]);
    }
}

/// Encodes one path segment.
pub fn encode_segment(s: &str) -> (r: String)
    ensures
        r@ == pointer_encode(s@),
        (forall|i: int| 0 <= i < s@.len() ==> s@[i] != '~' && s@[i] != '/') ==> r@ == s@,
{
    proof {
        law_encode_keeps_plain_text(s@);
    }
    let mut out = String::new();
    for c in it: s.chars()
        invariant
            it.seq() == s@,
            out@ == pointer_encode(s@.take(it.index())),
    {
        let ghost k = it.index();
        proof {
            assert(s@.take(k + 1) =~= s@.take(k).push(c));
            lemma_encode_push(s@.take(k), c);
        }
        if c == '~' {
            push_char(&mut out, '~');
            push_char(&mut out, '0');
        } else if c == '/' {
            push_char(&mut out, '~');
            push_char(&mut out, '1');
        } else {
            push_char(&mut out, c);
        }
        assert(out@ =~= pointer_encode(s@.take(k + 1)));
    }
    assert(s@.take(s@.len() as int) =~= s@);
    out
}

/// The index of the first `:` at or after `i`, or the length when there is
/// none.
pub open spec fn first_colon_from(s: Seq<char>, i: int) -> int
    decreases s.len() - i,
{
    if i < 0 || i >= s.len() {
        s.len() as int
    } else if s[i] == ':' {
        i
    } else {
        first_colon_from(s, i + 1)
    }
}

/// A text split at its first `:`; without one, the type is empty and the
/// whole text is the id.
pub open spec fn colon_split(s: Seq<char>) -> (Seq<char>, Seq<char>) {
    let k = first_colon_from(s, 0);
    if k < s.len() {
        (s.take(k), s.skip(k + 1))
    } else {
        (seq![], s)
    }
}

/// Splits `type:id` at the first `:`; `("", s)` when there is none.
pub fn split_colon(s: &str) -> (r: (&str, &str))
    ensures
        r.0@ == colon_split(s@).0,
        r.1@ == colon_split(s@).1,
{
    let n = s.unicode_len();
    let mut i: usize = 0;
    for c in it: s.chars()
        invariant
            it.seq() == s@,
            n == s@.len(),
            i == it.index(),
            first_colon_from(s@, 0) == first_colon_from(s@, i as int),
    {
        if c == ':' {
            return (s.substring_char(0, i), s.substring_char(i + 1, n));
        }
        i = i + 1;
    }
    proof {
        reveal_strlit("");
    }
    ("", s)
}

/// Whether `p` stands in `s` at character position `start`.
fn occurs_at(s: &str, n: usize, start: usize, p: &str) -> (r: bool)
    requires
        n == s@.len(),
    ensures
        r == (start + p@.len() <= s@.len() && s@.subrange(start as int, start + p@.len()) == p@),
{
    let m = p.unicode_len();
    if start > n || m > n - start {
        return false;
    }
    let mut j: usize = 0;
    while j < m
        invariant
            n == s@.len(),
            m == p@.len(),
            start + m <= n,
            j <= m,
            forall|k: int| 0 <= k < j ==> s@[start + k] == p@[k],
        decreases m - j,
    {
        if s.get_char(start + j) != p.get_char(j) {
            assert(s@.subrange(start as int, start + p@.len())[j as int] != p@[j as int]);
            return false;
        }
        j = j + 1;
    }
    assert(s@.subrange(start as int, start + p@.len()) =~= p@);
    true
}

/// The group of a group-membership subject `group:<id>#member`.
pub open spec fn group_member_id(u: Seq<char>) -> Option<Seq<char>> {
    if u.len() >= 13 && u.take(6) == "group:"@ && u.skip(u.len() - 7) == "#member"@ {
        Some(u.subrange(6, u.len() - 7))
    } else {
        None
    }
}

/// `user.strip_prefix("group:")` followed by `strip_suffix("#member")`.
pub fn group_member(user: &str) -> (r: Option<&str>)
    ensures
        r is Some <==> group_member_id(user@) is Some,
        r matches Some(g) ==> g@ == group_member_id(user@)->0,
{
    proof {
        reveal_strlit("group:");
        reveal_strlit("#member");
    }
    let n = user.unicode_len();
    if n < 13 {
        return None;
    }
    let prefix = occurs_at(user, n, 0, "group:");
    let suffix = occurs_at(user, n, n - 7, "#member");
    proof {
        assert(user@.take(6) =~= user@.subrange(0, 6));
        assert(user@.skip(n - 7) =~= user@.subrange(n - 7, n as int));
    }
    if prefix && suffix {
        Some(user.substring_char(6, n - 7))
    } else {
        None
    }
}

/// The subject's type and id: a group membership is filed under the type
/// `group#member` with the group's id; any other subject is split at its
/// first `:`.
pub open spec fn user_segments(u: Seq<char>) -> (Seq<char>, Seq<char>) {
    match group_member_id(u) {
        Some(g) => ("group#member"@, g),
        None => colon_split(u),
    }
}

/// The data path of a tuple's fact:
/// `/v1/data/library/tuples/<obj_type>/<obj_id>/<relation>/<usr_type>/<usr_id>`,
/// each segment encoded.
pub open spec fn tuple_path_of(user: Seq<char>, relation: Seq<char>, object: Seq<char>) -> Seq<
    char,
> {
    "/v1/data/library/tuples/"@ + pointer_encode(colon_split(object).0) + "/"@ + pointer_encode(
        colon_split(object).1,
    ) + "/"@ + pointer_encode(relation) + "/"@ + pointer_encode(user_segments(user).0) + "/"@
        + pointer_encode(user_segments(user).1)
}

/// The OPA data path that stores the tuple `user` / `relation` / `object`.
pub fn tuple_path(user: &str, relation: &str, object: &str) -> (r: String)
    ensures
        r@ == tuple_path_of(user@, relation@, object@),
{
    let (obj_type, obj_id) = split_colon(object);
    let (usr_type, usr_id) = match group_member(user) {
        Some(group_id) => ("group#member", group_id),
        None => split_colon(user),
    };
    let path = "/v1/data/library/tuples/".to_string();
    let path = path.concat(encode_segment(obj_type).as_str()).concat("/");
    let path = path.concat(encode_segment(obj_id).as_str()).concat("/");
    let path = path.concat(encode_segment(relation).as_str()).concat("/");
    let path = path.concat(encode_segment(usr_type).as_str()).concat("/");
    path.concat(encode_segment(usr_id).as_str())
}

/// No character of `s` is `/`.
pub open spec fn no_slash(s: Seq<char>) -> bool {
    forall|i: int| 0 <= i < s.len() ==> s[i] != '/'
}

proof fn lemma_split_at_first_slash(a: Seq<char>, b: Seq<char>, c: Seq<char>, d: Seq<char>)
    requires
        no_slash(a),
        no_slash(c),
        a + seq!['/'] + b == c + seq!['/'] + d,
    ensures
        a == c,
        b == d,
{
    let x = a + seq!['/'] + b;
    if a.len() < c.len() {
        assert(x[a.len() as int] == '/');
        assert((c + seq!['/'] + d)[a.len() as int] == c[a.len() as int]);
    } else if c.len() < a.len() {
        assert((c + seq!['/'] + d)[c.len() as int] == '/');
        assert(x[c.len() as int] == a[c.len() as int]);
    }
    assert(a =~= x.take(a.len() as int));
    assert(c =~= (c + seq!['/'] + d).take(c.len() as int));
    assert(b =~= x.skip(a.len() as int + 1));
    assert(d =~= (c + seq!['/'] + d).skip(c.len() as int + 1));
}

/// The five encoded segments joined by `/`.
spec fn joined(e1: Seq<char>, e2: Seq<char>, e3: Seq<char>, e4: Seq<char>, e5: Seq<char>) -> Seq<
    char,
> {
    e1 + seq!['/'] + (e2 + seq!['/'] + (e3 + seq!['/'] + (e4 + seq!['/'] + e5)))
}

proof fn lemma_joined_unique(
    a: (Seq<char>, Seq<char>, Seq<char>, Seq<char>, Seq<char>),
    b: (Seq<char>, Seq<char>, Seq<char>, Seq<char>, Seq<char>),
)
    requires
        no_slash(pointer_encode(a.0)),
        no_slash(pointer_encode(a.1)),
        no_slash(pointer_encode(a.2)),
        no_slash(pointer_encode(a.3)),
        no_slash(pointer_encode(b.0)),
        no_slash(pointer_encode(b.1)),
        no_slash(pointer_encode(b.2)),
        no_slash(pointer_encode(b.3)),
        joined(
            pointer_encode(a.0),
            pointer_encode(a.1),
            pointer_encode(a.2),
            pointer_encode(a.3),
            pointer_encode(a.4),
        ) == joined(
            pointer_encode(b.0),
            pointer_encode(b.1),
            pointer_encode(b.2),
            pointer_encode(b.3),
            pointer_encode(b.4),
        ),
    ensures
        a == b,
{
    let (a0, a1, a2, a3, a4) = (
        pointer_encode(a.0),
        pointer_encode(a.1),
        pointer_encode(a.2),
        pointer_encode(a.3),
        pointer_encode(a.4),
    );
    let (b0, b1, b2, b3, b4) = (
        pointer_encode(b.0),
        pointer_encode(b.1),
        pointer_encode(b.2),
        pointer_encode(b.3),
        pointer_encode(b.4),
    );
    lemma_split_at_first_slash(
        a0,
        a1 + seq!['/'] + (a2 + seq!['/'] + (a3 + seq!['/'] + a4)),
        b0,
        b1 + seq!['/'] + (b2 + seq!['/'] + (b3 + seq!['/'] + b4)),
    );
    lemma_split_at_first_slash(
        a1,
        a2 + seq!['/'] + (a3 + seq!['/'] + a4),
        b1,
        b2 + seq!['/'] + (b3 + seq!['/'] + b4),
    );
    lemma_split_at_first_slash(a2, a3 + seq!['/'] + a4, b2, b3 + seq!['/'] + b4);
    lemma_split_at_first_slash(a3, a4, b3, b4);
    lemma_encode_injective(a.0, b.0);
    lemma_encode_injective(a.1, b.1);
    lemma_encode_injective(a.2, b.2);
    lemma_encode_injective(a.3, b.3);
    lemma_encode_injective(a.4, b.4);
}

proof fn lemma_path_is_prefix_and_joined(
    e1: Seq<char>,
    e2: Seq<char>,
    e3: Seq<char>,
    e4: Seq<char>,
    e5: Seq<char>,
)
    ensures
        "/v1/data/library/tuples/"@ + e1 + "/"@ + e2 + "/"@ + e3 + "/"@ + e4 + "/"@ + e5
            == "/v1/data/library/tuples/"@ + joined(e1, e2, e3, e4, e5),
{
    reveal_strlit("/");
    assert("/v1/data/library/tuples/"@ + e1 + "/"@ + e2 + "/"@ + e3 + "/"@ + e4 + "/"@ + e5
        =~= "/v1/data/library/tuples/"@ + joined(e1, e2, e3, e4, e5));
}

proof fn lemma_segments_from_path(
    a: (Seq<char>, Seq<char>, Seq<char>, Seq<char>, Seq<char>),
    b: (Seq<char>, Seq<char>, Seq<char>, Seq<char>, Seq<char>),
)
    requires
        "/v1/data/library/tuples/"@ + pointer_encode(a.0) + "/"@ + pointer_encode(a.1) + "/"@
            + pointer_encode(a.2) + "/"@ + pointer_encode(a.3) + "/"@ + pointer_encode(a.4)
            == "/v1/data/library/tuples/"@ + pointer_encode(b.0) + "/"@ + pointer_encode(b.1)
            + "/"@ + pointer_encode(b.2) + "/"@ + pointer_encode(b.3) + "/"@ + pointer_encode(
            b.4,
        ),
    ensures
        a == b,
{
    let prefix = "/v1/data/library/tuples/"@;
    let ja = joined(
        pointer_encode(a.0),
        pointer_encode(a.1),
        pointer_encode(a.2),
        pointer_encode(a.3),
        pointer_encode(a.4),
    );
    let jb = joined(
        pointer_encode(b.0),
        pointer_encode(b.1),
        pointer_encode(b.2),
        pointer_encode(b.3),
        pointer_encode(b.4),
    );
    lemma_path_is_prefix_and_joined(
        pointer_encode(a.0),
        pointer_encode(a.1),
        pointer_encode(a.2),
        pointer_encode(a.3),
        pointer_encode(a.4),
    );
    lemma_path_is_prefix_and_joined(
        pointer_encode(b.0),
        pointer_encode(b.1),
        pointer_encode(b.2),
        pointer_encode(b.3),
        pointer_encode(b.4),
    );
    assert(ja =~= (prefix + ja).skip(prefix.len() as int));
    assert(jb =~= (prefix + jb).skip(prefix.len() as int));
    lemma_encode_has_no_slash(a.0);
    lemma_encode_has_no_slash(a.1);
    lemma_encode_has_no_slash(a.2);
    lemma_encode_has_no_slash(a.3);
    lemma_encode_has_no_slash(b.0);
    lemma_encode_has_no_slash(b.1);
    lemma_encode_has_no_slash(b.2);
    lemma_encode_has_no_slash(b.3);
    lemma_joined_unique(a, b);
}

/// A fact's data path tells its segments apart: two tuples stored at the
/// same path have the same object type and id, relation, and subject type
/// and id.
pub proof fn lemma_tuple_path_identifies_segments(
    u1: Seq<char>,
    r1: Seq<char>,
    o1: Seq<char>,
    u2: Seq<char>,
    r2: Seq<char>,
    o2: Seq<char>,
)
    ensures
        tuple_path_of(u1, r1, o1) == tuple_path_of(u2, r2, o2) ==> colon_split(o1) == colon_split(
            o2,
        ) && r1 == r2 && user_segments(u1) == user_segments(u2),
{
    let (ot1, oi1) = colon_split(o1);
    let (ot2, oi2) = colon_split(o2);
    let (ut1, ui1) = user_segments(u1);
    let (ut2, ui2) = user_segments(u2);
    if tuple_path_of(u1, r1, o1) == tuple_path_of(u2, r2, o2) {
        lemma_segments_from_path((ot1, oi1, r1, ut1, ui1), (ot2, oi2, r2, ut2, ui2));
    }
}

/// Where an OPA server answers.
#[derive(Debug, Clone, PartialEq, Eq)]
pub struct OpaTarget {
    pub base_url: String,
}

impl OpaTarget {
    /// Asks the `library.authz.allow` rule about the tuple.
    pub fn check_call(&self, tuple: AccessTuple) -> (r: AuthzCall)
        ensures
            r.method == HttpMethod::Post,
            r.url@ == self.base_url@ + "/v1/data/library/authz/allow"@,
            r.body == (CallBody::OpaInput { tuple }),
    {
        AuthzCall {
            method: HttpMethod::Post,
            url: self.base_url.clone().concat("/v1/data/library/authz/allow"),
            body: CallBody::OpaInput { tuple },
        }
    }

    /// Stores the tuple as the fact `true` at its data path.
    pub fn write_call(&self, tuple: AccessTuple) -> (r: AuthzCall)
        ensures
            r.method == HttpMethod::Put,
            r.url@ == self.base_url@ + tuple_path_of(tuple.user@, tuple.relation@, tuple.object@),
            r.body == CallBody::True,
    {
        let path = tuple_path(tuple.user.as_str(), tuple.relation.as_str(), tuple.object.as_str());
        AuthzCall {
            method: HttpMethod::Put,
            url: self.base_url.clone().concat(path.as_str()),
            body: CallBody::True,
        }
    }

    /// Removes the fact stored at the tuple's data path.
    pub fn delete_call(&self, tuple: AccessTuple) -> (r: AuthzCall)
        ensures
            r.method == HttpMethod::Delete,
            r.url@ == self.base_url@ + tuple_path_of(tuple.user@, tuple.relation@, tuple.object@),
            r.body == CallBody::Empty,
    {
        let path = tuple_path(tuple.user.as_str(), tuple.relation.as_str(), tuple.object.as_str());
        AuthzCall {
            method: HttpMethod::Delete,
            url: self.base_url.clone().concat(path.as_str()),
            body: CallBody::Empty,
        }
    }
}

} // verus!
