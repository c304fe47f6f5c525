//! Text codecs shared across the library: base64url without padding,
//! decimal digits, and a few small std helpers carried behind named
//! results.

use vstd::prelude::*;
use vstd::utf8::decode_utf8;
use vstd::utf8::valid_utf8;

use base64::Engine;

use crate::jwk::is_b64url_char;

verus! {

/// What the URL-safe unpadded base64 encoding of `bytes` reads as.  The
/// result depends on the bytes alone.
pub uninterp spec fn b64url_encode_of(bytes: Seq<u8>) -> Seq<char>;

/// What URL-safe unpadded base64 decoding of `s` yields: the encoded bytes,
/// or `None` when `s` is not a valid encoding.  The result depends on the
/// text alone.
pub uninterp spec fn b64url_decode_of(s: Seq<char>) -> Option<Seq<u8>>;

/// Relies on `base64`'s `URL_SAFE_NO_PAD` engine to encode.  The encoding
/// spends four characters of the documented url-safe alphabet on every
/// three bytes (two or three characters on a trailing one or two bytes),
/// and decoding inverts it.
#[verifier::external_body]
pub fn encode_b64url(bytes: &Vec<u8>) -> (r: String)
    ensures
        r@ == b64url_encode_of(bytes@),
        r@.len() == (bytes@.len() / 3) * 4 + (
        if bytes@.len() % 3 == 0 {
            0int
        } else {
            (bytes@.len() % 3 + 1) as int
        }),
        forall|i: int| 0 <= i < r@.len() ==> is_b64url_char(r@[i]),
        b64url_decode_of(r@) == Some(bytes@),
{
    base64::engine::general_purpose::URL_SAFE_NO_PAD.encode(bytes)
}

/// Relies on `base64`'s `URL_SAFE_NO_PAD` engine to decode.
#[verifier::external_body]
pub fn decode_b64url(s: &str) -> (r: Option<Vec<u8>>)
    ensures
        match r {
            Some(b) => b64url_decode_of(s@) == Some(b@),
            None => b64url_decode_of(s@) is None,
        },
{
    match base64::engine::general_purpose::URL_SAFE_NO_PAD.decode(s) {
        Ok(b) => Some(b),
        Err(_) => None,
    }
}

/// Whether `b` is an ASCII decimal digit.
pub open spec fn is_digit_byte(b: u8) -> bool {
    48 <= b && b <= 57
}

/// Whether `s` is a non-empty run of ASCII decimal digits.
pub open spec fn all_digit_bytes(s: Seq<u8>) -> bool {
    &&& s.len() > 0
    &&& forall|i: int| 0 <= i < s.len() ==> is_digit_byte(s[i])
}

/// The number a run of ASCII decimal digits denotes.
pub open spec fn decimal_value_of(s: Seq<u8>) -> nat
    decreases s.len(),
{
    if s.len() == 0 {
        0
    } else {
        decimal_value_of(s.drop_last()) * 10 + (s.last() - 48) as nat
    }
}

/// The canonical decimal digits of `n`: no sign, no leading zero except
/// for zero itself.
pub open spec fn decimal_bytes(n: nat) -> Seq<u8>
    decreases n,
{
    if n < 10 {
        seq![(n + 48) as u8]
    } else {
        decimal_bytes(n / 10).push((n % 10 + 48) as u8)
    }
}

/// The canonical digits of `n` denote `n` again.
pub proof fn lemma_decimal_round_trip(n: nat)
    ensures
        all_digit_bytes(decimal_bytes(n)),
        decimal_value_of(decimal_bytes(n)) == n,
    decreases n,
{
    if n < 10 {
        let s = decimal_bytes(n);
        assert(s.drop_last() =~= Seq::<u8>::empty());
        assert(s.last() == (n + 48) as u8);
        assert(((n + 48) as u8) as int == n + 48);
        assert(decimal_value_of(s.drop_last()) == 0);
        assert(decimal_value_of(s) == decimal_value_of(s.drop_last()) * 10 + (s.last()
            - 48) as nat);
    } else {
        lemma_decimal_round_trip(n / 10);
        let s = decimal_bytes(n);
        let prefix = decimal_bytes(n / 10);
        assert(s.drop_last() =~= prefix);
        assert(s.last() == (n % 10 + 48) as u8);
        assert(((n % 10 + 48) as u8) as int == n % 10 + 48);
        assert(decimal_value_of(s) == decimal_value_of(prefix) * 10 + n % 10);
        assert(n / 10 * 10 + n % 10 == n);
        assert forall|j: int| 0 <= j < s.len() implies is_digit_byte(s[j]) by {
            if j < s.len() - 1 {
                assert(s[j] == prefix[j]);
            }
        }
    }
}

/// Write the canonical decimal digits of `x`, as bytes: least significant
/// digit first into a scratch list, then reversed.
pub fn u32_decimal_bytes(x: u32) -> (r: Vec<u8>)
    ensures
        r@ == decimal_bytes(x as nat),
{
    let mut rev: Vec<u8> = Vec::new();
    let ghost empty_rev = rev@;
    let mut m: u32 = x;
    let digit: u8 = (m % 10) as u8 + 48;
    proof {
        assert(empty_rev.reverse() =~= Seq::<u8>::empty());
        assert(decimal_bytes(x as nat) =~= decimal_bytes(m as nat) + empty_rev.reverse());
        assert(digit == (m as nat % 10 + 48) as u8);
    }
    rev.push(digit);
    proof {
        lemma_decimal_step(x as nat, m as nat, empty_rev);
        assert(rev@ =~= empty_rev.push(digit));
    }
    m = m / 10;
    while m > 0
        invariant
            rev@.len() > 0,
            decimal_bytes(x as nat) =~= decimal_bytes(m as nat).skip(
                if m > 0 {
                    0int
                } else {
                    1int
                },
            ) + rev@.reverse(),
        decreases m,
    {
        let ghost old_rev = rev@;
        let digit: u8 = (m % 10) as u8 + 48;
        proof {
            assert(decimal_bytes(m as nat).skip(0) =~= decimal_bytes(m as nat));
            assert(digit == (m as nat % 10 + 48) as u8);
        }
        rev.push(digit);
        proof {
            lemma_decimal_step(x as nat, m as nat, old_rev);
            assert(rev@ =~= old_rev.push(digit));
        }
        m = m / 10;
    }
    proof {
        assert(decimal_bytes(0nat).skip(1) =~= Seq::<u8>::empty());
        assert(decimal_bytes(x as nat) =~= rev@.reverse());
    }
    let mut out: Vec<u8> = Vec::new();
    let mut i: usize = rev.len();
    while i > 0
        invariant
            i <= rev.len(),
            out@.len() == rev@.len() - i,
            forall|j: int| 0 <= j < out@.len() ==> out@[j] == rev@[rev@.len() - 1 - j],
        decreases i,
    {
        i = i - 1;
        out.push(rev[i]);
    }
    proof {
        assert(out@ =~= rev@.reverse());
    }
    out
}

/// One step of writing digits out backwards: peeling the last digit of
/// `m` off onto the scratch list keeps the whole number's digits equal to
/// the digits of what is left, followed by the scratch list reversed.
proof fn lemma_decimal_step(x: nat, m: nat, rev: Seq<u8>)
    requires
        decimal_bytes(x) =~= decimal_bytes(m) + rev.reverse(),
    ensures
        decimal_bytes(x) =~= decimal_bytes(m / 10).skip(
            if m / 10 > 0 {
                0int
            } else {
                1int
            },
        ) + (rev.push((m % 10 + 48) as u8)).reverse(),
{
    let d = (m % 10 + 48) as u8;
    assert((rev.push(d)).reverse() =~= seq![d] + rev.reverse());
    if m < 10 {
        assert(decimal_bytes(m) =~= seq![d]);
        assert(decimal_bytes(m / 10).skip(1) =~= Seq::<u8>::empty()) by {
            assert(m / 10 == 0);
            assert(decimal_bytes(0nat).len() == 1);
        }
    } else {
        assert(decimal_bytes(m) =~= decimal_bytes(m / 10).push(d));
        assert(decimal_bytes(m / 10).skip(0) =~= decimal_bytes(m / 10));
        assert(decimal_bytes(m / 10).push(d) =~= decimal_bytes(m / 10) + seq![d]);
    }
}

/// Read a `u32` out of a non-empty run of ASCII decimal digits.
pub fn parse_u32_bytes(bytes: &Vec<u8>) -> (r: Option<u32>)
    ensures
        match r {
            Some(x) => all_digit_bytes(bytes@) && decimal_value_of(bytes@) == x,
            None => !all_digit_bytes(bytes@) || decimal_value_of(bytes@) > u32::MAX,
        },
{
    if bytes.len() == 0 {
        return None;
    }
    let mut value: u32 = 0;
    let mut i: usize = 0;
    while i < bytes.len()
        invariant
            i <= bytes.len(),
            forall|j: int| 0 <= j < i ==> is_digit_byte(bytes@[j]),
            value == decimal_value_of(bytes@.take(i as int)),
            bytes@.len() > 0,
        decreases bytes.len() - i,
    {
        let b = bytes[i];
        if b < 48 || b > 57 {
            return None;
        }
        let digit = (b - 48) as u32;
        proof {
            assert(bytes@.take(i + 1).drop_last() =~= bytes@.take(i as int));
            assert(bytes@.take(i + 1).last() == bytes@[i as int]);
        }
        let shifted = match value.checked_mul(10) {
            Some(v) => v,
            None => {
                proof {
                    lemma_decimal_prefix_monotone(bytes@, i + 1);
                }
                return None;
            },
        };
        let next = match shifted.checked_add(digit) {
            Some(v) => v,
            None => {
                proof {
                    lemma_decimal_prefix_monotone(bytes@, i + 1);
                }
                return None;
            },
        };
        value = next;
        i = i + 1;
    }
    proof {
        assert(bytes@.take(bytes@.len() as int) =~= bytes@);
    }
    Some(value)
}

/// A digit run denotes at least what any of its prefixes denotes.
proof fn lemma_decimal_prefix_monotone(s: Seq<u8>, i: int)
    requires
        0 <= i <= s.len(),
    ensures
        decimal_value_of(s) >= decimal_value_of(s.take(i)),
    decreases s.len() - i,
{
    if i < s.len() {
        lemma_decimal_prefix_monotone(s, i + 1);
        assert(s.take(i + 1).drop_last() =~= s.take(i));
        let prefix_value = decimal_value_of(s.take(i));
        assert(decimal_value_of(s.take(i + 1)) == prefix_value * 10 + (s.take(i + 1).last()
            - 48) as nat);
        assert(prefix_value * 10 >= prefix_value);
    } else {
        assert(s.take(i) =~= s);
    }
}

/// What `str::to_uppercase` turns `s` into; depends on the characters
/// alone.
pub uninterp spec fn upper_of(s: Seq<char>) -> Seq<char>;

/// Relies on `str::to_uppercase`.
#[verifier::external_body]
pub fn to_upper(s: &str) -> (r: String)
    ensures
        r@ == upper_of(s@),
{
    s.to_uppercase()
}

/// What `str::trim` leaves of `s`: the text without leading and trailing
/// whitespace; depends on the characters alone.
pub uninterp spec fn trim_of(s: Seq<char>) -> Seq<char>;

/// Relies on `str::trim`; the result is a substring, so it is never longer
/// than the input.
#[verifier::external_body]
pub fn trim_str(s: &str) -> (r: String)
    ensures
        r@ == trim_of(s@),
        r@.len() <= s@.len(),
{
    s.trim().to_owned()
}

/// What `url::Url::parse` normalizes `s` into: the serialization of the
/// parsed URL, or `None` when `s` is not an absolute URL; depends on the
/// text alone.
pub uninterp spec fn url_norm_of(s: Seq<char>) -> Option<Seq<char>>;

/// Relies on `url::Url::parse`; the result is the parsed URL written back
/// out.
#[verifier::external_body]
pub fn parse_url(s: &str) -> (r: Option<String>)
    ensures
        match r {
            Some(u) => url_norm_of(s@) == Some(u@),
            None => url_norm_of(s@) is None,
        },
{
    match url::Url::parse(s) {
        Ok(u) => Some(String::from(u)),
        Err(_) => None,
    }
}

/// Relies on std's equality for `str`.
#[verifier::external_body]
pub fn str_eq(a: &str, b: &str) -> (r: bool)
    ensures
        r == (a@ == b@),
{
    a == b
}

/// Relies on `String::from_utf8`: it succeeds exactly on valid UTF-8,
/// and the result holds the characters the bytes encode.
#[verifier::external_body]
pub fn bytes_to_string(bytes: Vec<u8>) -> (r: Option<String>)
    ensures
        r is Some <==> valid_utf8(bytes@),
        r matches Some(s) ==> s@ == decode_utf8(bytes@),
{
    match String::from_utf8(bytes) {
        Ok(s) => Some(s),
        Err(_) => None,
    }
}

} // verus!
