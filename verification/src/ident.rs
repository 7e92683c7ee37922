//! User identifiers: 128-bit values whose text form is that of the `uuid`
//! crate. The two calls into that crate, and the names for their results.

use vstd::prelude::*;

verus! {

/// The identifier that `uuid::Uuid::parse_str` reads from `text`, as the
/// 128-bit value of its bytes in big-endian order, or `None` where the text
/// is no identifier.
pub uninterp spec fn parsed_id(text: Seq<char>) -> Option<u128>;

/// The text that `uuid::Uuid` writes for the identifier with the 128-bit
/// value `id`: lower-case hexadecimal digits in five groups with hyphens.
pub uninterp spec fn rendered_id(id: u128) -> Seq<char>;

/// Calls `uuid::Uuid::parse_str`, and `as_u128` on what it gives.
///
/// Trusted: the result is a function of the text alone.
#[verifier::external_body]
pub(crate) fn parse_id(text: &str) -> (r: Option<u128>)
    ensures
        r == parsed_id(text@),
{
    uuid::Uuid::parse_str(text).ok().map(|id| id.as_u128())
}

/// Calls `uuid::Uuid::from_u128`, and `to_string` on what it gives.
///
/// Trusted: the result is a function of the value alone, and the text that
/// is written reads back as the same identifier.
#[verifier::external_body]
pub(crate) fn render_id(id: u128) -> (r: String)
    ensures
        r@ == rendered_id(id),
        parsed_id(r@) == Some(id),
{
    uuid::Uuid::from_u128(id).to_string()
}

/// The bits that mark an identifier as random: version 4, variant 1.
pub open spec fn is_random_id(id: u128) -> bool {
    id & 0x0000_0000_0000_f000_c000_0000_0000_0000u128
        == 0x0000_0000_0000_4000_8000_0000_0000_0000u128
}

/// Calls `uuid::Uuid::new_v4`, and `as_u128` on what it gives.
///
/// Trusted: whatever the random source gives, the crate sets the bits for
/// version 4 and variant 1.
#[verifier::external_body]
pub(crate) fn random_id() -> (id: u128)
    ensures
        is_random_id(id),
{
    uuid::Uuid::new_v4().as_u128()
}

} // verus!
