//! Key material fetched from the identity provider.
//!
//! A key descriptor carries a key id and the RSA modulus and exponent as
//! base64url text, exactly as the provider's JWKS document lists them.  The
//! library treats a descriptor as well formed when both components are
//! non-empty base64url text; a fetched document containing even one malformed
//! descriptor is rejected wholesale.

use vstd::prelude::*;

verus! {

/// An RSA public key descriptor, keyed by the provider-assigned key id.
/// Immutable once constructed; a refresh replaces the whole set.
#[derive(Debug, Clone, PartialEq, Eq)]
pub struct JwkKey {
    /// Provider-assigned key identifier.
    pub kid: String,
    /// RSA modulus, base64url-encoded.
    pub n: String,
    /// RSA public exponent, base64url-encoded.
    pub e: String,
}

/// Whether `c` belongs to the base64url alphabet: `A`-`Z`, `a`-`z`, `0`-`9`,
/// `-` or `_` (code points 65-90, 97-122, 48-57, 45 and 95).
pub open spec fn is_b64url_char(c: char) -> bool {
    let u = c as u32;
    (65 <= u && u <= 90) || (97 <= u && u <= 122) || (48 <= u && u <= 57) || u == 45 || u == 95
}

/// Whether `s` is non-empty base64url text: every character in the alphabet,
/// and a length that unpadded base64 can produce (never 1 modulo 4).
pub open spec fn is_b64url_text(s: Seq<char>) -> bool {
    &&& s.len() > 0
    &&& s.len() % 4 != 1
    &&& forall|i: int| 0 <= i < s.len() ==> is_b64url_char(s[i])
}

/// Whether `c` belongs to the base64url alphabet.
pub fn b64url_char(c: char) -> (r: bool)
    ensures
        r == is_b64url_char(c),
{
    let u = c as u32;
    (65 <= u && u <= 90) || (97 <= u && u <= 122) || (48 <= u && u <= 57) || u == 45 || u == 95
}

/// Whether `s` is non-empty base64url text.
pub fn b64url_text(s: &str) -> (r: bool)
    ensures
        r == is_b64url_text(s@),
{
    let len = s.unicode_len();
    if len == 0 || len % 4 == 1 {
        return false;
    }
    let mut ok = true;
    for c in it: s.chars()
        invariant
            it.seq() == s@,
            ok <==> (forall|i: int| 0 <= i < it.index() ==> is_b64url_char(it.seq()[i])),
    {
        ok = ok && b64url_char(c);
    }
    ok
}

/// Whether a key descriptor is well formed: both RSA components are
/// non-empty base64url text.
pub open spec fn key_well_formed(k: JwkKey) -> bool {
    &&& is_b64url_text(k.n@)
    &&& is_b64url_text(k.e@)
}

/// Whether every descriptor in a key set is well formed.
pub open spec fn keys_well_formed(keys: Seq<JwkKey>) -> bool {
    forall|i: int| 0 <= i < keys.len() ==> key_well_formed(keys[i])
}

/// Whether some descriptor in `keys` carries the key id `kid`.
pub open spec fn has_key(keys: Seq<JwkKey>, kid: Seq<char>) -> bool {
    exists|i: int| 0 <= i < keys.len() && keys[i].kid@ == kid
}

/// The last descriptor in `keys` carrying the key id `kid`, if any.  When
/// a key document carries two descriptors under one key id, the later one
/// wins — the behaviour of a map filled in document order.
pub open spec fn find_key(keys: Seq<JwkKey>, kid: Seq<char>) -> Option<JwkKey>
    decreases keys.len(),
{
    if keys.len() == 0 {
        None
    } else if keys.last().kid@ == kid {
        Some(keys.last())
    } else {
        find_key(keys.drop_last(), kid)
    }
}

/// `find_key` succeeds exactly when some descriptor carries the key id.
pub proof fn lemma_find_key_some(keys: Seq<JwkKey>, kid: Seq<char>)
    ensures
        find_key(keys, kid) is Some <==> has_key(keys, kid),
        find_key(keys, kid) matches Some(k) ==> exists|i: int|
            0 <= i < keys.len() && keys[i] == k && keys[i].kid@ == kid,
    decreases keys.len(),
{
    if keys.len() > 0 {
        lemma_find_key_some(keys.drop_last(), kid);
        if keys.last().kid@ != kid {
            assert forall|i: int| 0 <= i < keys.len() && keys[i].kid@ == kid implies has_key(
                keys.drop_last(),
                kid,
            ) by {
                assert(keys.drop_last()[i] == keys[i]);
            }
            assert forall|i: int|
                0 <= i < keys.drop_last().len() && keys.drop_last()[i].kid@
                    == kid implies has_key(keys, kid) by {
                assert(keys[i] == keys.drop_last()[i]);
            }
        }
    }
}

/// Look up the last descriptor carrying `kid`.
pub fn lookup_key<'a>(keys: &'a Vec<JwkKey>, kid: &String) -> (r: Option<&'a JwkKey>)
    ensures
        match r {
            Some(k) => find_key(keys@, kid@) == Some(*k),
            None => find_key(keys@, kid@) is None,
        },
{
    proof {
        assert(keys@.take(keys@.len() as int) =~= keys@);
    }
    let mut i: usize = keys.len();
    while i > 0
        invariant
            i <= keys.len(),
            find_key(keys@, kid@) == find_key(keys@.take(i as int), kid@),
        decreases i,
    {
        i = i - 1;
        proof {
            assert(keys@.take(i + 1).last() == keys@[i as int]);
            assert(keys@.take(i + 1).drop_last() =~= keys@.take(i as int));
        }
        if keys[i].kid == *kid {
            return Some(&keys[i]);
        }
    }
    proof {
        assert(keys@.take(0).len() == 0);
    }
    None
}

} // verus!
