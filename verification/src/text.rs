//! Text handling shared by the queries: whitespace trimming as `str::trim`
//! performs it, and the "required, non-blank" rule for titles, names and
//! prompt texts.

use vstd::prelude::*;
use crate::error::DbError;

verus! {

/// Unicode `White_Space` code points, the set that `char::is_whitespace`
/// (and therefore `str::trim`) uses.
pub open spec fn is_white_space(c: char) -> bool {
    let u = c as u32;
    ||| 0x09 <= u <= 0x0d
    ||| u == 0x20
    ||| u == 0x85
    ||| u == 0xa0
    ||| u == 0x1680
    ||| 0x2000 <= u <= 0x200a
    ||| u == 0x2028
    ||| u == 0x2029
    ||| u == 0x202f
    ||| u == 0x205f
    ||| u == 0x3000
}

/// `s` without its leading white space.
pub open spec fn trim_start(s: Seq<char>) -> Seq<char>
    decreases s.len(),
{
    if s.len() > 0 && is_white_space(s[0]) {
        trim_start(s.drop_first())
    } else {
        s
    }
}

/// `s` without its trailing white space.
pub open spec fn trim_end(s: Seq<char>) -> Seq<char>
    decreases s.len(),
{
    if s.len() > 0 && is_white_space(s.last()) {
        trim_end(s.drop_last())
    } else {
        s
    }
}

/// `s` without leading and trailing white space.
pub open spec fn trimmed(s: Seq<char>) -> Seq<char> {
    trim_end(trim_start(s))
}

/// Whether `s` holds nothing but white space (or nothing at all).
pub open spec fn is_blank(s: Seq<char>) -> bool {
    trimmed(s).len() == 0
}

/// Calls `str::trim`, which removes leading and trailing characters for
/// which `char::is_whitespace` holds, that is the Unicode `White_Space`
/// set of `is_white_space`.
#[verifier::external_body]
pub fn trim(s: &str) -> (r: &str)
    ensures
        r@ == trimmed(s@),
{
    s.trim()
}

/// Compares two string slices with `<str as PartialEq>::eq`, which is
/// equality of their character sequences.
#[verifier::external_body]
pub fn same_text(a: &str, b: &str) -> (r: bool)
    ensures
        r == (a@ == b@),
{
    a == b
}

/// The rule for a required text field: it is stored trimmed, and a value
/// that trims to nothing is refused with `InvalidInput(message)`.
pub fn required_text<'a>(s: &'a str, message: &'static str) -> (r: Result<&'a str, DbError>)
    ensures
        is_blank(s@) ==> r == Err::<&str, DbError>(DbError::InvalidInput(message)),
        !is_blank(s@) ==> (r matches Ok(t) && t@ == trimmed(s@)),
{
    let t = trim(s);
    if t.is_empty() {
        Err(DbError::InvalidInput(message))
    } else {
        Ok(t)
    }
}

/// Trimming leaves no white space at either end.
pub proof fn lemma_trimmed_has_no_outer_white_space(s: Seq<char>)
    ensures
        trimmed(s).len() > 0 ==> !is_white_space(trimmed(s)[0]),
        trimmed(s).len() > 0 ==> !is_white_space(trimmed(s).last()),
{
    lemma_trim_start_first(s);
    lemma_trim_end_keeps_first(trim_start(s));
    lemma_trim_end_last(trim_start(s));
}

proof fn lemma_trim_start_first(s: Seq<char>)
    ensures
        trim_start(s).len() > 0 ==> !is_white_space(trim_start(s)[0]),
    decreases s.len(),
{
    if s.len() > 0 && is_white_space(s[0]) {
        lemma_trim_start_first(s.drop_first());
    }
}

proof fn lemma_trim_end_last(s: Seq<char>)
    ensures
        trim_end(s).len() > 0 ==> !is_white_space(trim_end(s).last()),
    decreases s.len(),
{
    if s.len() > 0 && is_white_space(s.last()) {
        lemma_trim_end_last(s.drop_last());
    }
}

/// `trim_end` keeps a prefix of its argument.
proof fn lemma_trim_end_is_prefix(s: Seq<char>)
    ensures
        trim_end(s).len() <= s.len(),
        trim_end(s) =~= s.subrange(0, trim_end(s).len() as int),
    decreases s.len(),
{
    if s.len() > 0 && is_white_space(s.last()) {
        lemma_trim_end_is_prefix(s.drop_last());
    }
}

proof fn lemma_trim_end_keeps_first(s: Seq<char>)
    ensures
        trim_end(s).len() > 0 ==> trim_end(s)[0] == s[0],
{
    lemma_trim_end_is_prefix(s);
}

/// Trimming twice is trimming once: a stored (trimmed) value passes the
/// rule unchanged when it is submitted again.
pub proof fn lemma_trimmed_idempotent(s: Seq<char>)
    ensures
        trimmed(trimmed(s)) == trimmed(s),
{
    let t = trimmed(s);
    lemma_trimmed_has_no_outer_white_space(s);
    assert(trim_start(t) == t);
    assert(trim_end(t) == t);
}

} // verus!
