//! Text as it stands in an address: percent-encoded pieces of text, and
//! keys written out.

use url::percent_encoding::{utf8_percent_encode, PATH_SEGMENT_ENCODE_SET, QUERY_ENCODE_SET};
use uuid::Uuid;
use vstd::arithmetic::power::pow;
use vstd::prelude::*;

verus! {

/// `text` percent-encoded for one segment of a path: the UTF-8 bytes of
/// `text`, each byte of the `url` crate's path segment set written as `%`
/// and two hexadecimal digits.
pub uninterp spec fn path_segment_encoded(text: Seq<char>) -> Seq<char>;

/// `text` percent-encoded for a query string: as for a path segment, with
/// the `url` crate's query set.
pub uninterp spec fn query_encoded(text: Seq<char>) -> Seq<char>;

/// Calls `url::percent_encoding::utf8_percent_encode` with
/// `PATH_SEGMENT_ENCODE_SET`. Trusted: the result depends on the text
/// alone.
#[verifier::external_body]
pub(crate) fn percent_encode_path_segment(text: &str) -> (encoded: String)
    ensures
        encoded@ == path_segment_encoded(text@),
{
    utf8_percent_encode(text, PATH_SEGMENT_ENCODE_SET).to_string()
}

/// Calls `url::percent_encoding::utf8_percent_encode` with
/// `QUERY_ENCODE_SET`. Trusted: the result depends on the text alone.
#[verifier::external_body]
pub(crate) fn percent_encode_query(text: &str) -> (encoded: String)
    ensures
        encoded@ == query_encoded(text@),
{
    utf8_percent_encode(text, QUERY_ENCODE_SET).to_string()
}

/// The place among the 32 hexadecimal digits of a key of the character
/// at place `i` of its text, which has hyphens at 8, 13, 18 and 23.
pub open spec fn digit_place(i: int) -> int {
    if i > 23 {
        i - 4
    } else if i > 18 {
        i - 3
    } else if i > 13 {
        i - 2
    } else if i > 8 {
        i - 1
    } else {
        i
    }
}

/// A key written out: its 32 hexadecimal digits, most significant first,
/// in lower case, in groups of 8, 4, 4, 4 and 12 with hyphens between.
pub open spec fn key_text(key: u128) -> Seq<char> {
    Seq::new(
        36,
        |i: int|
            if i == 8 || i == 13 || i == 18 || i == 23 {
                '-'
            } else {
                "0123456789abcdef"@[(key as int / pow(16, (31 - digit_place(i)) as nat)) % 16]
            },
    )
}

/// Calls `uuid::Uuid::from_u128` and the `Display` of the `Uuid`.
/// Trusted: the text is the hyphenated lower-case form, the digits in the
/// order of the number's big-endian bytes.
#[verifier::external_body]
pub(crate) fn uuid_to_string(key: u128) -> (text: String)
    ensures
        text@ == key_text(key),
{
    Uuid::from_u128(key).to_string()
}

} // verus!
