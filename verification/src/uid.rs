//! Universally unique identifiers, held as plain values.
//!
//! The library keeps a UUID as its two 64-bit halves; the `uuid` crate is
//! relied on only to draw fresh random identifiers and to move between the
//! value and its canonical hyphenated text.

use vstd::prelude::*;

verus! {

/// A UUID as the pair of its high and low 64-bit halves.
#[derive(Debug, Clone, Copy, PartialEq, Eq, Hash, Structural)]
pub struct UuidValue {
    /// The most significant 64 bits.
    pub hi: u64,
    /// The least significant 64 bits.
    pub lo: u64,
}

/// The canonical hyphenated text of the UUID with the given halves; depends
/// on the halves alone.
pub uninterp spec fn uuid_text_of(hi: u64, lo: u64) -> Seq<char>;

/// What parsing a UUID out of `s` yields: the halves, or `None` when `s`
/// is not a UUID text; depends on the text alone.
pub uninterp spec fn uuid_parse_of(s: Seq<char>) -> Option<(u64, u64)>;

/// Relies on `uuid::Uuid::new_v4`: a random identifier, of which nothing
/// is promised.
#[verifier::external_body]
pub fn uuid_new_v4() -> (r: UuidValue) {
    let (hi, lo) = uuid::Uuid::new_v4().as_u64_pair();
    UuidValue { hi, lo }
}

/// Relies on `uuid::Uuid::to_string`: the canonical hyphenated form, 36
/// characters, which `parse_str` reads back.
#[verifier::external_body]
pub fn uuid_to_string(u: UuidValue) -> (r: String)
    ensures
        r@ == uuid_text_of(u.hi, u.lo),
        r@.len() == 36,
        uuid_parse_of(r@) == Some((u.hi, u.lo)),
{
    uuid::Uuid::from_u64_pair(u.hi, u.lo).to_string()
}

/// Relies on `uuid::Uuid::parse_str`.
#[verifier::external_body]
pub fn uuid_parse(s: &str) -> (r: Option<UuidValue>)
    ensures
        match r {
            Some(u) => uuid_parse_of(s@) == Some((u.hi, u.lo)),
            None => uuid_parse_of(s@) is None,
        },
{
    match uuid::Uuid::parse_str(s) {
        Ok(u) => {
            let (hi, lo) = u.as_u64_pair();
            Some(UuidValue { hi, lo })
        },
        Err(_) => None,
    }
}

} // verus!
