//! Digesting a fetch of the provider's published key set.
//!
//! The network call itself lives outside the library; what comes back — the
//! `Cache-Control` header value and the response body — is digested here.
//! The header must carry a `max-age` directive (the design refuses to guess
//! a default TTL), the body must be a JWKS document, and every key
//! descriptor in it must be well formed; otherwise the whole fetch fails
//! with a typed error and nothing is cached.

use vstd::prelude::*;

use crate::jwk::JwkKey;
use crate::jwk::b64url_text;
use crate::jwk::is_b64url_text;
use crate::jwk::key_well_formed;
use crate::jwk::keys_well_formed;
use crate::jsonval::json_as_array;
use crate::jsonval::json_as_str;
use crate::jsonval::json_get;
use crate::jsonval::json_items_of;
use crate::jsonval::json_member_of;
use crate::jsonval::json_parse;
use crate::jsonval::json_parse_of;
use crate::jsonval::spec_member_str;

verus! {

/// Why a key-set fetch failed.  These are provider-side or transient
/// failures, never attributed to the end user's token.
#[derive(Debug, Clone, Copy, PartialEq, Eq, Structural)]
pub enum FetchError {
    /// The response carried no `Cache-Control` header, its directives could
    /// not be parsed, or no `max-age` directive was present.
    MissingCachePolicy,
    /// The response body was not a JWKS document, or a key descriptor in it
    /// was malformed.
    InvalidKeyMaterial,
    /// The network call itself failed.
    Network,
    /// The network call timed out.
    Timeout,
}

/// A fresh snapshot of the provider's key set: the descriptors and the
/// absolute deadline (epoch seconds) after which they count as stale.
#[derive(Debug, Clone, PartialEq, Eq)]
pub struct FetchedKeys {
    /// The key descriptors, all well formed.
    pub keys: Vec<JwkKey>,
    /// `now + max-age` at the time of the fetch, saturated at `u64::MAX`.
    pub refresh_at: u64,
}

/// The `max-age` directive, in seconds, that the `cache_control` crate reads
/// out of a `Cache-Control` header value; `None` when the value has no
/// parsable `max-age`.  The result depends on the header value alone.
pub uninterp spec fn cc_max_age_of(value: Seq<char>) -> Option<u64>;

/// Relies on `cache_control::CacheControl::from_value` to parse the header
/// value; the seconds of its `max_age` duration are handed back unchanged.
#[verifier::external_body]
fn parse_max_age(value: &str) -> (r: Option<u64>)
    ensures
        r == cc_max_age_of(value@),
{
    match cache_control::CacheControl::from_value(value) {
        Some(cc) => match cc.max_age {
            Some(age) => Some(age.as_secs()),
            None => None,
        },
        None => None,
    }
}

/// Whether a JWKS entry carries the three string fields of a key
/// descriptor.
pub open spec fn spec_entry_well_formed(v: serde_json::Value) -> bool {
    &&& spec_member_str(v, "kid"@) is Some
    &&& spec_member_str(v, "n"@) is Some
    &&& spec_member_str(v, "e"@) is Some
}

/// Whether `k` holds exactly the descriptor fields of the JWKS entry `v`.
pub open spec fn spec_entry_matches(v: serde_json::Value, k: JwkKey) -> bool {
    &&& spec_member_str(v, "kid"@) == Some(k.kid@)
    &&& spec_member_str(v, "n"@) == Some(k.n@)
    &&& spec_member_str(v, "e"@) == Some(k.e@)
}

/// Whether a JWKS entry is acceptable: a descriptor whose RSA components
/// are non-empty base64url text.
pub open spec fn spec_entry_acceptable(v: serde_json::Value) -> bool {
    &&& spec_entry_well_formed(v)
    &&& spec_member_str(v, "n"@) matches Some(n) && is_b64url_text(n)
    &&& spec_member_str(v, "e"@) matches Some(e) && is_b64url_text(e)
}

/// The entries of a JWKS document: the items of its `keys` array, or
/// `None` when the text is not a JSON object with a `keys` array.
pub open spec fn spec_jwks_entries(s: Seq<char>) -> Option<Seq<serde_json::Value>> {
    match json_parse_of(s) {
        Some(doc) => match json_member_of(doc, "keys"@) {
            Some(member) => json_items_of(member),
            None => None,
        },
        None => None,
    }
}

/// Whether `s` is an acceptable key document: a JWKS document whose
/// entries are all acceptable descriptors.
pub open spec fn spec_jwks_acceptable(s: Seq<char>) -> bool {
    spec_jwks_entries(s) matches Some(entries) && (forall|i: int|
        0 <= i < entries.len() ==> spec_entry_acceptable(entries[i]))
}

/// Read one key descriptor out of a JWKS entry: an object with string
/// fields `kid`, `n` and `e`.
fn parse_jwk_entry(entry: &serde_json::Value) -> (r: Option<JwkKey>)
    ensures
        r is Some <==> spec_entry_well_formed(*entry),
        r matches Some(k) ==> spec_entry_matches(*entry, k),
{
    let kid = match json_get(entry, "kid") {
        Some(v) => match json_as_str(v) {
            Some(s) => s.to_owned(),
            None => return None,
        },
        None => return None,
    };
    let n = match json_get(entry, "n") {
        Some(v) => match json_as_str(v) {
            Some(s) => s.to_owned(),
            None => return None,
        },
        None => return None,
    };
    let e = match json_get(entry, "e") {
        Some(v) => match json_as_str(v) {
            Some(s) => s.to_owned(),
            None => return None,
        },
        None => return None,
    };
    Some(JwkKey { kid, n, e })
}

/// Read the key descriptors out of a JWKS document: an object whose `keys`
/// field is an array of descriptor entries, every one well formed.
fn parse_jwk_body(body: &str) -> (r: Option<Vec<JwkKey>>)
    ensures
        r is Some <==> (spec_jwks_entries(body@) matches Some(entries) && (forall|i: int|
            0 <= i < entries.len() ==> spec_entry_well_formed(entries[i]))),
        r matches Some(keys) ==> (spec_jwks_entries(body@) matches Some(entries) && keys@.len()
            == entries.len() && (forall|i: int|
            0 <= i < entries.len() ==> spec_entry_matches(entries[i], keys@[i]))),
{
    let doc = match json_parse(body) {
        Some(v) => v,
        None => return None,
    };
    let entries = match json_get(&doc, "keys") {
        Some(v) => match json_as_array(v) {
            Some(a) => a,
            None => return None,
        },
        None => return None,
    };
    let mut keys: Vec<JwkKey> = Vec::new();
    let mut i: usize = 0;
    while i < entries.len()
        invariant
            i <= entries.len(),
            spec_jwks_entries(body@) == Some(entries@),
            keys@.len() == i,
            forall|j: int| 0 <= j < i ==> spec_entry_well_formed(entries@[j]),
            forall|j: int| 0 <= j < i ==> spec_entry_matches(entries@[j], keys@[j]),
        decreases entries.len() - i,
    {
        match parse_jwk_entry(&entries[i]) {
            Some(k) => keys.push(k),
            None => {
                proof {
                    assert(!spec_entry_well_formed(entries@[i as int]));
                    assert(spec_jwks_entries(body@) matches Some(es) ==> !(forall|j: int|
                        0 <= j < es.len() ==> spec_entry_well_formed(es[j]))) by {
                        assert(entries@[i as int] == spec_jwks_entries(body@)->0[i as int]);
                    }
                }
                return None;
            },
        }
        i = i + 1;
    }
    Some(keys)
}

/// Check that every descriptor of a fetched key set is well formed.
fn check_keys(keys: &Vec<JwkKey>) -> (r: bool)
    ensures
        r == keys_well_formed(keys@),
{
    let mut i: usize = 0;
    while i < keys.len()
        invariant
            i <= keys.len(),
            forall|j: int| 0 <= j < i ==> key_well_formed(keys@[j]),
        decreases keys.len() - i,
    {
        if !b64url_text(keys[i].n.as_str()) || !b64url_text(keys[i].e.as_str()) {
            assert(!is_b64url_text(keys@[i as int].n@) || !is_b64url_text(keys@[i as int].e@));
            return false;
        }
        i = i + 1;
    }
    true
}

/// Digest a fetch of the provider's key document performed at time `now`.
///
/// The fetch is accepted only when the response carried a `Cache-Control`
/// value with a `max-age` directive and the body is a JWKS document whose
/// descriptors are all well formed.  The returned deadline is
/// `now + max-age`, saturated at `u64::MAX`; the caller subtracts the
/// safety margin when it decides whether the cache is still fresh.
pub fn process_fetch_response(
    now: u64,
    cache_control_value: Option<&str>,
    body: &str,
) -> (r: Result<FetchedKeys, FetchError>)
    ensures
        r == Err::<FetchedKeys, FetchError>(FetchError::MissingCachePolicy) <==> (match
            cache_control_value {
            None => true,
            Some(v) => cc_max_age_of(v@) is None,
        }),
        r is Ok <==> (cache_control_value matches Some(v) && cc_max_age_of(v@) is Some)
            && spec_jwks_acceptable(body@),
        r matches Ok(f) ==> {
            &&& keys_well_formed(f.keys@)
            &&& (spec_jwks_entries(body@) matches Some(entries) && f.keys@.len()
                == entries.len() && (forall|i: int|
                0 <= i < entries.len() ==> spec_entry_matches(entries[i], f.keys@[i])))
            &&& cache_control_value matches Some(v) && cc_max_age_of(v@) matches Some(age)
                && f.refresh_at == if now + age <= u64::MAX {
                now + age
            } else {
                u64::MAX as int
            }
        },
        r matches Err(e) ==> (e == FetchError::MissingCachePolicy || e
            == FetchError::InvalidKeyMaterial),
{
    let value = match cache_control_value {
        Some(v) => v,
        None => return Err(FetchError::MissingCachePolicy),
    };
    let max_age = match parse_max_age(value) {
        Some(age) => age,
        None => return Err(FetchError::MissingCachePolicy),
    };
    let keys = match parse_jwk_body(body) {
        Some(keys) => keys,
        None => return Err(FetchError::InvalidKeyMaterial),
    };
    if !check_keys(&keys) {
        proof {
            lemma_keys_acceptable(body@, keys@);
        }
        return Err(FetchError::InvalidKeyMaterial);
    }
    proof {
        lemma_keys_acceptable(body@, keys@);
    }
    let refresh_at = now.saturating_add(max_age);
    Ok(FetchedKeys { keys, refresh_at })
}

/// A parsed key list is well formed exactly when its document is
/// acceptable: the base64url condition on the descriptors transfers
/// field-wise between the entries and the parsed keys.
proof fn lemma_keys_acceptable(body: Seq<char>, keys: Seq<JwkKey>)
    requires
        spec_jwks_entries(body) matches Some(entries) && keys.len() == entries.len() && (
        forall|i: int| 0 <= i < entries.len() ==> spec_entry_well_formed(entries[i])) && (
        forall|i: int| 0 <= i < entries.len() ==> spec_entry_matches(entries[i], keys[i])),
    ensures
        keys_well_formed(keys) <==> spec_jwks_acceptable(body),
{
    let entries = spec_jwks_entries(body)->0;
    if keys_well_formed(keys) {
        assert forall|i: int| 0 <= i < entries.len() implies spec_entry_acceptable(
            entries[i],
        ) by {
            assert(key_well_formed(keys[i]));
            assert(spec_entry_matches(entries[i], keys[i]));
        }
    }
    if spec_jwks_acceptable(body) {
        assert forall|i: int| 0 <= i < keys.len() implies key_well_formed(keys[i]) by {
            assert(spec_entry_acceptable(entries[i]));
            assert(spec_entry_matches(entries[i], keys[i]));
        }
    }
}

} // verus!
