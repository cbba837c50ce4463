//! Fresh row ids and the wall clock.

use vstd::prelude::*;
use vstd::arithmetic::power2::pow2;

verus! {

#[verifier::external_type_specification]
#[verifier::external_body]
pub struct ExUuid(uuid::Uuid);

#[verifier::external_type_specification]
#[verifier::external_body]
pub struct ExSystemTime(std::time::SystemTime);

/// A lower-case hexadecimal digit.
pub open spec fn is_lower_hex_digit(c: char) -> bool {
    ('0' <= c && c <= '9') || ('a' <= c && c <= 'f')
}

/// The hyphenated text form of a UUID: 36 characters, `-` at positions 8,
/// 13, 18 and 23, a lower-case hexadecimal digit everywhere else.
pub open spec fn is_hyphenated_uuid(s: Seq<char>) -> bool {
    &&& s.len() == 36
    &&& forall|i: int|
        0 <= i < 36 ==> if i == 8 || i == 13 || i == 18 || i == 23 {
            s[i] == '-'
        } else {
            is_lower_hex_digit(#[trigger] s[i])
        }
}

/// The `k`-th hexadecimal digit (0 to 15) of a 128-bit value, counted from
/// the most significant end (0 to 31).
pub open spec fn nibble(v: u128, k: int) -> int {
    (v as int / pow2((4 * (31 - k)) as nat) as int) % 16
}

/// The lower-case hexadecimal digits, in order.
pub open spec fn hex_digits() -> Seq<char> {
    seq!['0', '1', '2', '3', '4', '5', '6', '7', '8', '9', 'a', 'b', 'c', 'd', 'e', 'f']
}

/// A position of the hyphenated form that holds `-`.
pub open spec fn is_hyphen_position(i: int) -> bool {
    i == 8 || i == 13 || i == 18 || i == 23
}

/// The digit a position of the hyphenated form shows: the position less
/// the hyphens before it.
pub open spec fn digit_index(i: int) -> int {
    if i < 8 {
        i
    } else if i < 13 {
        i - 1
    } else if i < 18 {
        i - 2
    } else if i < 23 {
        i - 3
    } else {
        i - 4
    }
}

/// The hyphenated lower-case text of the UUID whose 128-bit value is `v`:
/// its 32 hexadecimal digits, most significant first, in groups of 8, 4,
/// 4, 4 and 12 joined by `-`.
pub open spec fn hyphenated(v: u128) -> Seq<char> {
    Seq::new(
        36,
        |i: int|
            if is_hyphen_position(i) {
                '-'
            } else {
                hex_digits()[nibble(v, digit_index(i))]
            },
    )
}

/// The hyphenated text of a version-4 UUID: a hyphenated UUID whose
/// version digit is `4` and whose variant digit is one of `8`, `9`, `a`,
/// `b`.
pub open spec fn is_v4_uuid_text(s: Seq<char>) -> bool {
    &&& is_hyphenated_uuid(s)
    &&& s[14] == '4'
    &&& (s[19] == '8' || s[19] == '9' || s[19] == 'a' || s[19] == 'b')
}

/// Calls `Uuid::new_v4`, a random version-4 UUID, and gives its 128-bit
/// value (`as_u128`). `new_v4` masks random bits so that the version digit
/// (hexadecimal digit 12) is 4 and the variant bits make digit 16 one of
/// 8 to 11.
#[verifier::external_body]
fn random_uuid() -> (v: u128)
    ensures
        nibble(v, 12) == 4,
        8 <= nibble(v, 16) <= 11,
{
    uuid::Uuid::new_v4().as_u128()
}

/// Calls `Uuid`'s `Display` through `to_string` on `Uuid::from_u128(v)`,
/// which writes the UUID in lower-case hyphenated form (`LowerHex` of
/// `as_hyphenated`, most significant digit first).
#[verifier::external_body]
fn uuid_text(v: u128) -> (s: String)
    ensures
        s@ == hyphenated(v),
{
    uuid::Uuid::from_u128(v).to_string()
}

/// Every digit of the hyphenated form is a lower-case hexadecimal digit.
proof fn lemma_hyphenated_is_uuid_text(v: u128)
    ensures
        is_hyphenated_uuid(hyphenated(v)),
{
    assert forall|i: int| 0 <= i < 36 && !is_hyphen_position(i) implies is_lower_hex_digit(
        #[trigger] hyphenated(v)[i],
    ) by {
        let n = nibble(v, digit_index(i));
        assert(0 <= n < 16);
        assert(is_lower_hex_digit(hex_digits()[n]));
    }
}

/// A fresh random id for a conversation or a message: the hyphenated text
/// of a version-4 UUID.
pub fn new_id() -> (s: String)
    ensures
        is_v4_uuid_text(s@),
{
    let v = random_uuid();
    let s = uuid_text(v);
    proof {
        lemma_hyphenated_is_uuid_text(v);
        assert(digit_index(14) == 12);
        assert(digit_index(19) == 16);
    }
    s
}

/// Calls `SystemTime::now`.
#[verifier::external_body]
fn system_now() -> std::time::SystemTime {
    std::time::SystemTime::now()
}

/// Calls `SystemTime::duration_since(UNIX_EPOCH)`; `None` where that call
/// fails, which it does when the time lies before the epoch.
#[verifier::external_body]
fn since_unix_epoch(t: &std::time::SystemTime) -> Option<std::time::Duration> {
    t.duration_since(std::time::UNIX_EPOCH).ok()
}

/// Calls `Duration::as_millis`.
#[verifier::external_body]
fn whole_millis(d: &std::time::Duration) -> u128 {
    d.as_millis()
}

/// A millisecond count as the store keeps it, in an `i64` (a cast that
/// keeps the low 64 bits, as `as` does).
pub fn millis_as_timestamp(ms: u128) -> (t: i64)
    ensures
        t == ms as i64,
{
    #[verifier::truncate]
    (ms as i64)
}

/// Milliseconds since the Unix epoch by the system clock; `None` when the
/// clock reads a time before the epoch.
pub fn now_ms() -> Option<i64> {
    let t = system_now();
    match since_unix_epoch(&t) {
        Some(d) => {
            let ms = whole_millis(&d);
            Some(millis_as_timestamp(ms))
        },
        None => None,
    }
}

} // verus!
