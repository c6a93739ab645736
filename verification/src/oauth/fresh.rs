//! Values that come from outside the library: random identifiers, random
//! secrets and the clock. Nothing here is proved; each contract states what the
//! outside crate's source shows of every outcome.

use crate::oauth::types::Timestamp;
use rand::Rng;
use vstd::prelude::*;

verus! {

/// A digit, or a letter from `a` to `f`.
pub open spec fn is_lower_hex(c: char) -> bool {
    ('0' <= c && c <= '9') || ('a' <= c && c <= 'f')
}

/// A letter or a digit of ASCII.
pub open spec fn is_ascii_alphanumeric(c: char) -> bool {
    ('0' <= c && c <= '9') || ('a' <= c && c <= 'z') || ('A' <= c && c <= 'Z')
}

/// The shape of a UUID in hyphenated lower-case form: 36 characters, hyphens
/// at offsets 8, 13, 18 and 23, hexadecimal digits elsewhere.
pub open spec fn is_hyphenated_uuid(s: Seq<char>) -> bool {
    &&& s.len() == 36
    &&& forall|i: int|
        0 <= i < 36 ==> if i == 8 || i == 13 || i == 18 || i == 23 {
            #[trigger] s[i] == '-'
        } else {
            is_lower_hex(s[i])
        }
}

/// Every character is a letter or a digit of ASCII.
pub open spec fn is_alphanumeric_seq(s: Seq<char>) -> bool {
    forall|i: int| 0 <= i < s.len() ==> is_ascii_alphanumeric(#[trigger] s[i])
}

/// Calls `uuid::Uuid::new_v4` and formats the result with its `Display`
/// impl. The contract claims only the format, which `uuid` fixes as the
/// hyphenated lower-case one; the value is random.
#[verifier::external_body]
pub(crate) fn random_uuid() -> (s: String)
    ensures
        is_hyphenated_uuid(s@),
{
    uuid::Uuid::new_v4().to_string()
}

/// Samples `length` characters from `rand::distr::Alphanumeric` with the
/// thread's generator, `rand::rng()`. The contract claims the length and that
/// each character is one of the 62 that the distribution draws from.
#[verifier::external_body]
pub(crate) fn generate_random_string(length: usize) -> (s: String)
    ensures
        s@.len() == length,
        is_alphanumeric_seq(s@),
{
    rand::rng().sample_iter(&rand::distr::Alphanumeric).take(length).map(char::from).collect()
}

/// Reads the clock with `chrono::Utc::now` and splits the result into seconds
/// and nanoseconds. Nothing is claimed of the value.
#[verifier::external_body]
pub(crate) fn utc_now() -> (t: Timestamp) {
    let now = chrono::Utc::now();
    Timestamp { seconds: now.timestamp(), nanos: now.timestamp_subsec_nanos() }
}

} // verus!
