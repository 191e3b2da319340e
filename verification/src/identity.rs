//! Client identities as text: the hyphenated form of a UUID.

use vstd::prelude::*;
use crate::message::ClientId;

verus! {

/// The identity that `uuid::Uuid::parse_str` reads from `text`, if it reads
/// one.
pub uninterp spec fn uuid_parse(text: Seq<char>) -> Option<u128>;

/// Sixteen to the power of `n`.
pub open spec fn sixteen_to(n: nat) -> int
    decreases n,
{
    if n == 0 {
        1
    } else {
        16 * sixteen_to((n - 1) as nat)
    }
}

/// The `n`-th of the 32 hexadecimal digits of `id`, most significant first.
pub open spec fn nibble(id: u128, n: int) -> int {
    (id as int / sixteen_to((31 - n) as nat)) % 16
}

/// The lower-case hexadecimal digit for `d`.
pub open spec fn hex_digit(d: int) -> char {
    if d == 0 {
        '0'
    } else if d == 1 {
        '1'
    } else if d == 2 {
        '2'
    } else if d == 3 {
        '3'
    } else if d == 4 {
        '4'
    } else if d == 5 {
        '5'
    } else if d == 6 {
        '6'
    } else if d == 7 {
        '7'
    } else if d == 8 {
        '8'
    } else if d == 9 {
        '9'
    } else if d == 10 {
        'a'
    } else if d == 11 {
        'b'
    } else if d == 12 {
        'c'
    } else if d == 13 {
        'd'
    } else if d == 14 {
        'e'
    } else {
        'f'
    }
}

/// How many hyphens stand before position `p` of the hyphenated form.
pub open spec fn hyphens_before(p: int) -> int {
    if p < 8 {
        0
    } else if p < 13 {
        1
    } else if p < 18 {
        2
    } else if p < 23 {
        3
    } else {
        4
    }
}

/// The hyphenated form of `id`: its 32 lower-case hexadecimal digits, most
/// significant first, in groups of 8, 4, 4, 4 and 12 with a hyphen between
/// groups.
pub open spec fn hyphenated_text(id: u128) -> Seq<char> {
    Seq::new(
        36,
        |p: int|
            if p == 8 || p == 13 || p == 18 || p == 23 {
                '-'
            } else {
                hex_digit(nibble(id, p - hyphens_before(p)))
            },
    )
}

/// Calls `uuid::Uuid::parse_str` and hands the identity out as its 128-bit
/// value. Trusted: whether the text is read, and as which identity, depends
/// on the text alone.
#[verifier::external_body]
fn uuid_from_text(text: &str) -> (r: Option<u128>)
    ensures
        r == uuid_parse(text@),
{
    uuid::Uuid::parse_str(text).ok().map(|u| u.as_u128())
}

/// Calls `uuid::Uuid::from_u128` and formats the result with
/// `Uuid::hyphenated`. Trusted: the text is the hyphenated form, and the
/// parser reads it back as `id`.
#[verifier::external_body]
fn uuid_to_text(id: u128) -> (r: String)
    ensures
        r@ == hyphenated_text(id),
        uuid_parse(r@) == Some(id),
{
    uuid::Uuid::from_u128(id).hyphenated().to_string()
}

/// The identity that `text` spells, in any form the UUID parser accepts.
pub fn parse_id(text: &str) -> (r: Option<ClientId>)
    ensures
        r == uuid_parse(text@),
{
    uuid_from_text(text)
}

/// The hyphenated form of `id`. [`parse_id`] reads it back as `id`.
pub fn format_id(id: ClientId) -> (r: String)
    ensures
        r@ == hyphenated_text(id),
        uuid_parse(r@) == Some(id),
{
    uuid_to_text(id)
}

} // verus!
