//! Pagination cursors.
//!
//! A cursor carries a non-negative offset; on the wire it reads as the
//! base64url encoding of the offset's decimal digits.

use vstd::prelude::*;

use crate::text::all_digit_bytes;
use crate::text::b64url_decode_of;
use crate::text::b64url_encode_of;
use crate::text::decimal_bytes;
use crate::text::decimal_value_of;
use crate::text::decode_b64url;
use crate::text::encode_b64url;
use crate::text::parse_u32_bytes;
use crate::text::u32_decimal_bytes;

verus! {

/// A cursor used to paginate connections.
#[derive(Debug, Clone, Copy, PartialEq, Eq, Hash, Structural)]
pub struct Cursor(u32);

impl Cursor {
    /// The offset the cursor stands for.
    pub closed spec fn spec_offset(&self) -> int {
        self.0 as int
    }

    /// A cursor at `offset`, which must be representable: non-negative and
    /// within `u32`.
    pub fn new(offset: i64) -> (r: Cursor)
        requires
            0 <= offset <= u32::MAX,
        ensures
            r.spec_offset() == offset,
    {
        Cursor(offset as u32)
    }

    /// The offset the cursor stands for; always representable, never
    /// negative and never above `u32::MAX`.
    pub fn as_offset(&self) -> (r: i64)
        ensures
            r == self.spec_offset(),
            0 <= r <= u32::MAX,
    {
        self.0 as i64
    }

    /// The cursor's wire text: base64url over the offset's decimal digits.
    pub fn encode(&self) -> (r: String)
        ensures
            r@ == b64url_encode_of(decimal_bytes(self.spec_offset() as nat)),
            b64url_decode_of(r@) == Some(decimal_bytes(self.spec_offset() as nat)),
    {
        let digits = u32_decimal_bytes(self.0);
        encode_b64url(&digits)
    }

    /// Read a cursor off the wire: base64url text whose decoded bytes are
    /// decimal digits denoting an offset within `u32`.
    pub fn decode(s: &str) -> (r: Option<Cursor>)
        ensures
            match r {
                Some(c) => b64url_decode_of(s@) matches Some(bytes) && all_digit_bytes(bytes)
                    && decimal_value_of(bytes) == c.spec_offset(),
                None => b64url_decode_of(s@) matches Some(bytes) ==> (!all_digit_bytes(bytes)
                    || decimal_value_of(bytes) > u32::MAX),
            },
    {
        let bytes = match decode_b64url(s) {
            Some(bytes) => bytes,
            None => return None,
        };
        match parse_u32_bytes(&bytes) {
            Some(offset) => Some(Cursor(offset)),
            None => None,
        }
    }
}

/// Decoding a cursor's wire text yields the cursor again: encode and
/// decode compose to the identity, for every cursor.
pub fn cursor_round_trip(c: Cursor) -> (r: Option<Cursor>)
    ensures
        r == Some(c),
{
    let wire = c.encode();
    proof {
        crate::text::lemma_decimal_round_trip(c.spec_offset() as nat);
    }
    Cursor::decode(wire.as_str())
}

} // verus!
