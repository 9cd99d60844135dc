//! Character-level helpers shared by the domain modules.

use vstd::prelude::*;

verus! {

/// Membership in the Unicode `White_Space` property (PropList.txt): the
/// controls U+0009 to U+000D, the space U+0020, NEXT LINE U+0085, NO-BREAK
/// SPACE U+00A0, OGHAM SPACE MARK U+1680, the spaces U+2000 to U+200A, LINE
/// SEPARATOR U+2028, PARAGRAPH SEPARATOR U+2029, NARROW NO-BREAK SPACE
/// U+202F, MEDIUM MATHEMATICAL SPACE U+205F and IDEOGRAPHIC SPACE U+3000.
pub open spec fn white_space(c: char) -> bool {
    let u = c as u32;
    ||| 0x09 <= u <= 0x0D
    ||| u == 0x20
    ||| u == 0x85
    ||| u == 0xA0
    ||| u == 0x1680
    ||| 0x2000 <= u <= 0x200A
    ||| u == 0x2028
    ||| u == 0x2029
    ||| u == 0x202F
    ||| u == 0x205F
    ||| u == 0x3000
}

/// `char::is_whitespace`: whether `c` has the Unicode `White_Space`
/// property, which [`white_space`] lists.
#[verifier::external_body]
fn char_is_whitespace(c: char) -> (r: bool)
    ensures
        r == white_space(c),
{
    c.is_whitespace()
}

/// A string is blank when every character is white space (so `trim` leaves
/// nothing behind).
pub open spec fn blank(s: Seq<char>) -> bool {
    forall|i: int| 0 <= i < s.len() ==> white_space(#[trigger] s[i])
}

/// `s.trim().is_empty()`.
pub fn is_blank(s: &str) -> (r: bool)
    ensures
        r == blank(s@),
{
    let mut all_space = true;
    for c in it: s.chars()
        invariant
            it.seq() == s@,
            all_space == (forall|j: int| 0 <= j < it.index() ==> white_space(#[trigger] s@[j])),
    {
        if !char_is_whitespace(c) {
            all_space = false;
        }
    }
    all_space
}

/// `String::push`: appends one character.
#[verifier::external_body]
pub(crate) fn push_char(s: &mut String, c: char)
    ensures
        final(s)@ == old(s)@.push(c),
{
    s.push(c);
}

/// The character of a decimal digit.
pub open spec fn digit_char(d: int) -> char {
    (48 + d) as char
}

/// The decimal digits of a natural number, most significant first, without
/// leading zeros.
pub open spec fn nat_decimal(n: nat) -> Seq<char>
    decreases n,
{
    if n < 10 {
        seq![digit_char(n as int)]
    } else {
        nat_decimal(n / 10).push(digit_char((n % 10) as int))
    }
}

/// The decimal text of an integer, with a leading `-` when negative.
pub open spec fn int_decimal(v: int) -> Seq<char> {
    if v < 0 {
        seq!['-'] + nat_decimal((-v) as nat)
    } else {
        nat_decimal(v as nat)
    }
}

fn push_nat_decimal(out: &mut String, n: u32)
    ensures
        final(out)@ == old(out)@ + nat_decimal(n as nat),
    decreases n,
{
    if n >= 10 {
        push_nat_decimal(out, n / 10);
    }
    let d: u8 = (n % 10) as u8;
    push_char(out, (48u8 + d) as char);
    assert(out@ =~= old(out)@ + nat_decimal(n as nat));
}

/// The decimal text of an `i16`, as `Display` writes it.
pub fn i16_decimal(v: i16) -> (s: String)
    ensures
        s@ == int_decimal(v as int),
{
    let mut s = String::new();
    if v < 0 {
        push_char(&mut s, '-');
        let m: u32 = (0i32 - v as i32) as u32;
        push_nat_decimal(&mut s, m);
    } else {
        push_nat_decimal(&mut s, v as u32);
    }
    assert(s@ =~= int_decimal(v as int));
    s
}

} // verus!
