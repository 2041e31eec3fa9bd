//! Identifiers: 128-bit values minted at random and written in the
//! hyphenated hexadecimal form.
use vstd::prelude::*;

verus! {

/// Lowercase hexadecimal digit of a nibble, as an ASCII byte.
pub open spec fn hex_digit(n: u128) -> u8 {
    if n < 10 {
        (48 + n) as u8
    } else {
        (87 + n) as u8
    }
}

/// The `k`-th nibble of `v`, counted from the most significant one.
pub open spec fn nibble(v: u128, k: int) -> u128 {
    (v >> (((31 - k) * 4) as u128)) & 0xf
}

/// Whether a hyphen stands at position `p` of the hyphenated form.
pub open spec fn hyphen_at(p: int) -> bool {
    p == 8 || p == 13 || p == 18 || p == 23
}

/// Number of hyphens before position `p` of the hyphenated form.
pub open spec fn hyphens_before(p: int) -> int {
    if p <= 8 {
        0
    } else if p <= 13 {
        1
    } else if p <= 18 {
        2
    } else if p <= 23 {
        3
    } else {
        4
    }
}

/// The hyphenated form of `v`: its 32 lowercase hexadecimal digits, most
/// significant first, grouped 8-4-4-4-12 by hyphens.
pub open spec fn hyphenated(v: u128) -> Seq<u8> {
    Seq::new(
        36,
        |p: int|
            if hyphen_at(p) {
                45u8
            } else {
                hex_digit(nibble(v, p - hyphens_before(p)))
            },
    )
}

/// Relies on uuid's `Uuid::from_u128` and `Uuid::hyphenated`: the bytes of
/// the id, big-endian, written as lowercase hex digits grouped 8-4-4-4-12.
#[verifier::external_body]
pub(crate) fn hyphenated_text(v: u128) -> (r: Vec<u8>)
    ensures
        r@ == hyphenated(v),
{
    uuid::Uuid::from_u128(v).hyphenated().to_string().into_bytes()
}

/// Relies on uuid's `Uuid::try_parse_ascii`: it reads the hyphenated form
/// back to the id it was written from.
#[verifier::external_body]
pub(crate) fn parse_id(b: &[u8]) -> (r: Option<u128>)
    ensures
        forall|v: u128| #[trigger] hyphenated(v) == b@ ==> r == Some(v),
{
    uuid::Uuid::try_parse_ascii(b).ok().map(|u| u.as_u128())
}

/// Relies on uuid's `Uuid::new_v4`: a random id, of which nothing is
/// promised.
#[verifier::external_body]
pub(crate) fn mint_id() -> (r: u128) {
    uuid::Uuid::new_v4().as_u128()
}

} // verus!
