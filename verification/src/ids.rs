//! Identities of workspaces, panes and panels.
//!
//! An identity is a UUID, held as its 128-bit value.

use vstd::prelude::*;

verus! {

/// The identity of a workspace, a pane or a panel: the 128-bit value of a UUID.
pub type Id = u128;

/// The nil UUID.
pub const NIL_ID: Id = 0u128;

/// What `uuid::Uuid::parse_str` gives for a text, as a 128-bit value, or
/// `None` where it refuses the text.
pub uninterp spec fn spec_uuid_parse(text: Seq<char>) -> Option<u128>;

/// The lower-case hexadecimal digit of a value below 16.
pub open spec fn hex_digit(n: u128) -> char {
    if n < 10 {
        (48 + n) as char
    } else {
        (87 + n) as char
    }
}

/// The number of the hexadecimal digit (0 the most significant) shown at
/// a place of the hyphenated form, which puts hyphens at places 8, 13, 18
/// and 23.
pub open spec fn digit_at(place: int) -> int {
    if place < 8 {
        place
    } else if place < 13 {
        place - 1
    } else if place < 18 {
        place - 2
    } else if place < 23 {
        place - 3
    } else {
        place - 4
    }
}

/// The lower-case hyphenated form of the UUID of a 128-bit value, what
/// `uuid::Uuid::to_string` gives: its 32 hexadecimal digits, most
/// significant first, in groups of 8, 4, 4, 4 and 12 joined by hyphens.
pub open spec fn spec_uuid_text(id: u128) -> Seq<char> {
    Seq::new(
        36,
        |place: int|
            if place == 8 || place == 13 || place == 18 || place == 23 {
                '-'
            } else {
                hex_digit((id >> ((124 - 4 * digit_at(place)) as u128)) & 0xfu128)
            },
    )
}

/// The lower-case hyphenated text of an identity.
///
/// Calls `uuid::Uuid::from_u128` and `to_string`, which gives the
/// hyphenated form `spec_uuid_text` states. That `parse_uuid` reads it
/// back is what the source of both shows, and is claimed here too.
#[verifier::external_body]
pub(crate) fn uuid_text(id: Id) -> (text: String)
    ensures
        text@ == spec_uuid_text(id),
        spec_uuid_parse(text@) == Some(id),
{
    uuid::Uuid::from_u128(id).to_string()
}

/// A fresh random identity.
///
/// Calls `uuid::Uuid::new_v4`. What it returns rests on chance; its source
/// sets the version nibble to 4 and the variant bits to `10`, which is all
/// that is claimed of it.
#[verifier::external_body]
pub(crate) fn new_id() -> (id: Id)
    ensures
        (id >> 76u128) & 0xfu128 == 4u128,
        (id >> 62u128) & 0x3u128 == 2u128,
{
    uuid::Uuid::new_v4().as_u128()
}

/// Parses a UUID text into an identity.
///
/// Calls `uuid::Uuid::parse_str` and takes `as_u128` of the result; a
/// refused text gives `None`. The grammar it accepts (simple, hyphenated,
/// braced and URN forms of hexadecimal digits) is not restated here: the
/// result is named `spec_uuid_parse` of the text.
#[verifier::external_body]
pub(crate) fn parse_uuid(text: &str) -> (id: Option<Id>)
    ensures
        id == spec_uuid_parse(text@),
{
    match uuid::Uuid::parse_str(text) {
        Ok(uuid) => Some(uuid.as_u128()),
        Err(_) => None,
    }
}

} // verus!
