//! Bearer-token verification.
//!
//! A presented token is authenticated in a fixed pipeline: decode the header
//! segment, resolve the signing key by its key id, check the RS256 signature,
//! and enforce the claim policy (expiry, issued-at sanity, issuer, audience)
//! with a 30-second clock-skew leeway.  Every failure is a typed value: claim
//! and signature failures are the client's fault, key-fetch failures are the
//! provider's.

use vstd::prelude::*;
use vstd::string::StringExecFns;

use crate::fetch::FetchError;
use crate::jsonval::json_as_str;
use crate::jsonval::json_as_u64;
use crate::jsonval::json_get;
use crate::jsonval::spec_member_str;
use crate::jsonval::spec_member_u64;
use crate::jwk::JwkKey;
use crate::jwk::find_key;
use crate::jwk::has_key;
use crate::jwk::lemma_find_key_some;
use crate::jwk::lookup_key;

verus! {

/// The provider's issuer base URL; a token's `iss` claim must equal this
/// URL followed by `/` and the project identifier.
pub const FIREBASE_ISS_URL: &'static str = "https://securetoken.google.com";

/// Clock-skew leeway, in seconds, applied symmetrically: `exp` may lie up to
/// this far in the past and `iat` up to this far in the future.
pub const CLOCK_LEEWAY: u64 = 30;

/// The decoded payload of a token.  Untrusted input until the verifier has
/// validated the signature and the claim policy.
#[derive(Debug, Clone, PartialEq, Eq)]
pub struct Claims {
    /// Expiry, in epoch seconds.
    pub exp: u64,
    /// Issued-at, in epoch seconds.
    pub iat: u64,
    /// Audience: the project identifier.
    pub aud: String,
    /// Issuer: the provider issuer URL followed by the project identifier.
    pub iss: String,
    /// Subject: the provider-scoped user id.
    pub sub: String,
    /// Redundant subject copy carried by some token variants.
    pub user_id: String,
}

/// Why a structurally sound, key-resolved token was rejected.
#[derive(Debug, Clone, Copy, PartialEq, Eq, Structural)]
pub enum ClaimReason {
    /// The signature did not verify under the resolved key, or the payload
    /// was not a claims object of the expected shape.
    BadSignature,
    /// The token's declared algorithm is not the approved one.
    WrongAlgorithm,
    /// `exp` lies more than the leeway in the past.
    Expired,
    /// `iat` lies more than the leeway in the future.
    IssuedAtFuture,
    /// `iss` differs from the expected issuer.
    WrongIssuer,
    /// `aud` differs from the expected audience.
    WrongAudience,
}

/// The claim policy over the bare claim values: at time `now`, a token
/// passes against the expected issuer and audience when it is not yet
/// expired (with leeway), was not issued in the future (with leeway), and
/// names exactly the expected issuer and audience.
pub open spec fn claims_policy_ok_parts(
    exp: u64,
    iat: u64,
    aud: Seq<char>,
    iss: Seq<char>,
    expected_iss: Seq<char>,
    expected_aud: Seq<char>,
    now: u64,
) -> bool {
    &&& now <= exp + CLOCK_LEEWAY
    &&& iat <= now + CLOCK_LEEWAY
    &&& iss == expected_iss
    &&& aud == expected_aud
}

/// The claim policy, over a decoded `Claims` value.
pub open spec fn claims_policy_ok(
    c: Claims,
    expected_iss: Seq<char>,
    expected_aud: Seq<char>,
    now: u64,
) -> bool {
    claims_policy_ok_parts(c.exp, c.iat, c.aud@, c.iss@, expected_iss, expected_aud, now)
}

/// The first policy failure over the bare claim values, in the order the
/// verifier checks them; `None` when the policy passes.
pub open spec fn claims_policy_failure_parts(
    exp: u64,
    iat: u64,
    aud: Seq<char>,
    iss: Seq<char>,
    expected_iss: Seq<char>,
    expected_aud: Seq<char>,
    now: u64,
) -> Option<ClaimReason> {
    if now > exp + CLOCK_LEEWAY {
        Some(ClaimReason::Expired)
    } else if iat > now + CLOCK_LEEWAY {
        Some(ClaimReason::IssuedAtFuture)
    } else if iss != expected_iss {
        Some(ClaimReason::WrongIssuer)
    } else if aud != expected_aud {
        Some(ClaimReason::WrongAudience)
    } else {
        None
    }
}

/// The first policy failure of a decoded `Claims` value.
pub open spec fn claims_policy_failure(
    c: Claims,
    expected_iss: Seq<char>,
    expected_aud: Seq<char>,
    now: u64,
) -> Option<ClaimReason> {
    claims_policy_failure_parts(c.exp, c.iat, c.aud@, c.iss@, expected_iss, expected_aud, now)
}

/// Enforce the claim policy at time `now`.
///
/// Both expiry edges are inclusive: `exp == now - CLOCK_LEEWAY` is still
/// accepted, `iat == now + CLOCK_LEEWAY` is still accepted.
pub fn validate_claims(
    claims: &Claims,
    expected_iss: &String,
    expected_aud: &String,
    now: u64,
) -> (r: Result<(), ClaimReason>)
    ensures
        r is Ok <==> claims_policy_ok(*claims, expected_iss@, expected_aud@, now),
        r matches Err(reason) ==> Some(reason) == claims_policy_failure(
            *claims,
            expected_iss@,
            expected_aud@,
            now,
        ),
{
    let expired = match claims.exp.checked_add(CLOCK_LEEWAY) {
        Some(limit) => now > limit,
        None => false,
    };
    if expired {
        return Err(ClaimReason::Expired);
    }
    let issued_in_future = match now.checked_add(CLOCK_LEEWAY) {
        Some(limit) => claims.iat > limit,
        None => false,
    };
    if issued_in_future {
        return Err(ClaimReason::IssuedAtFuture);
    }
    if claims.iss != *expected_iss {
        return Err(ClaimReason::WrongIssuer);
    }
    if claims.aud != *expected_aud {
        return Err(ClaimReason::WrongAudience);
    }
    Ok(())
}

/// The algorithm a token's header declares.  Only RS256 is ever approved,
/// so the others are not told apart.
#[derive(Debug, Clone, Copy, PartialEq, Eq, Structural)]
pub enum TokenAlgorithm {
    /// RSASSA-PKCS1-v1_5 with SHA-256: the one approved algorithm.
    RS256,
    /// Any other declared algorithm; never accepted.
    Other,
}

/// A token's decoded header segment: the declared algorithm and, when
/// present, the key id naming the signing key.
#[derive(Debug, Clone, PartialEq, Eq)]
pub struct TokenHeader {
    /// The declared signing algorithm.
    pub alg: TokenAlgorithm,
    /// The key id of the signing key, if the header carries one.
    pub kid: Option<String>,
}

/// How verification of a presented token failed.
#[derive(Debug, Clone, Copy, PartialEq, Eq, Structural)]
pub enum VerifyError {
    /// The input is not structurally a token with a decodable header.
    MalformedHeader,
    /// The header carries no key id.
    MissingKeyId,
    /// The header's key id names no key in the current key set.
    UnknownKey,
    /// The key set itself could not be obtained; a provider-side failure,
    /// not the client's fault.
    KeyFetch(FetchError),
    /// The signature or the claim policy rejected the token.
    ClaimRejected(ClaimReason),
}

/// An authenticated identity: the verified header paired with the verified
/// claims.  Produced only as the successful output of verification.
#[derive(Debug, Clone)]
pub struct AuthInfo {
    header: TokenHeader,
    claims: Claims,
}

impl AuthInfo {
    /// The verified header.
    pub closed spec fn spec_header(&self) -> TokenHeader {
        self.header
    }

    /// The verified claims.
    pub closed spec fn spec_claims(&self) -> Claims {
        self.claims
    }

    /// Pair a verified header with its verified claims.
    pub fn new(header: TokenHeader, claims: Claims) -> (r: AuthInfo)
        ensures
            r.spec_header() == header,
            r.spec_claims() == claims,
    {
        AuthInfo { header, claims }
    }

    /// The verified header.
    pub fn header(&self) -> (r: &TokenHeader)
        ensures
            *r == self.spec_header(),
    {
        &self.header
    }

    /// The verified claims.
    pub fn claims(&self) -> (r: &Claims)
        ensures
            *r == self.spec_claims(),
    {
        &self.claims
    }
}

/// What decoding a token's header segment yields: the declared algorithm
/// (kept only as "RS256 or not", which is all the pinning check reads)
/// and the key id, or `None` when the input is not structurally a token.
/// The result depends on the token text alone.
pub uninterp spec fn token_header_of(token: Seq<char>) -> Option<TokenHeader>;

/// Relies on `jsonwebtoken::decode_header` to split the token and decode
/// its header segment, without verifying anything.
#[verifier::external_body]
fn decode_token_header(token: &str) -> (r: Option<TokenHeader>)
    ensures
        r == token_header_of(token@),
{
    match jsonwebtoken::decode_header(token) {
        Ok(h) => {
            let alg = match h.alg {
                jsonwebtoken::Algorithm::RS256 => TokenAlgorithm::RS256,
                _ => TokenAlgorithm::Other,
            };
            Some(TokenHeader { alg, kid: h.kid })
        },
        Err(_) => None,
    }
}

/// What the pinned RS256 signature check yields for a token under the RSA
/// public key (`n`, `e`): the token's payload as a claims object when the
/// signature verifies, `None` otherwise.  The result depends on the three
/// texts alone.
pub uninterp spec fn rs256_payload_of(token: Seq<char>, n: Seq<char>, e: Seq<char>) -> Option<
    serde_json::Value,
>;

/// Relies on `jsonwebtoken::decode`: with the algorithm list pinned to
/// RS256 and the built-in claim checks turned off, it verifies the token's
/// signature against the RSA public key (`n`, `e`) and hands back the
/// payload's claims object.  Bad key material, a non-RS256 token or a bad
/// signature all come back as `None`; the claim policy itself is enforced
/// by verified code afterwards.
#[verifier::external_body]
fn check_signature_rs256(token: &str, n: &str, e: &str) -> (r: Option<serde_json::Value>)
    ensures
        r == rs256_payload_of(token@, n@, e@),
{
    let key = match jsonwebtoken::DecodingKey::from_rsa_components(n, e) {
        Ok(k) => k,
        Err(_) => return None,
    };
    let mut validation = jsonwebtoken::Validation::new(jsonwebtoken::Algorithm::RS256);
    validation.validate_exp = false;
    validation.validate_aud = false;
    validation.required_spec_claims = std::collections::HashSet::new();
    match jsonwebtoken::decode::<serde_json::Value>(token, &key, &validation) {
        Ok(data) => Some(data.claims),
        Err(_) => None,
    }
}

/// Whether a token payload carries all six claim fields with the expected
/// JSON types, issued no later than it expires.
pub open spec fn spec_claims_well_formed(payload: serde_json::Value) -> bool {
    &&& spec_member_u64(payload, "exp"@) matches Some(exp) && (spec_member_u64(payload, "iat"@)
        matches Some(iat) && iat <= exp)
    &&& spec_member_str(payload, "aud"@) is Some
    &&& spec_member_str(payload, "iss"@) is Some
    &&& spec_member_str(payload, "sub"@) is Some
    &&& spec_member_str(payload, "user_id"@) is Some
}

/// Whether `c` holds exactly the claim fields of `payload`.
pub open spec fn spec_claims_match(payload: serde_json::Value, c: Claims) -> bool {
    &&& spec_member_u64(payload, "exp"@) == Some(c.exp)
    &&& spec_member_u64(payload, "iat"@) == Some(c.iat)
    &&& spec_member_str(payload, "aud"@) == Some(c.aud@)
    &&& spec_member_str(payload, "iss"@) == Some(c.iss@)
    &&& spec_member_str(payload, "sub"@) == Some(c.sub@)
    &&& spec_member_str(payload, "user_id"@) == Some(c.user_id@)
}

/// Read the claim fields out of a verified token payload.  All six fields
/// must be present with the expected JSON types, and the issued-at time
/// must not lie after the expiry — the invariant every `Claims` value
/// built from untrusted input satisfies.
pub fn extract_claims(payload: &serde_json::Value) -> (r: Option<Claims>)
    ensures
        r is Some <==> spec_claims_well_formed(*payload),
        r matches Some(c) ==> spec_claims_match(*payload, c) && c.iat <= c.exp,
{
    let exp = match json_get(payload, "exp") {
        Some(v) => match json_as_u64(v) {
            Some(x) => x,
            None => return None,
        },
        None => return None,
    };
    let iat = match json_get(payload, "iat") {
        Some(v) => match json_as_u64(v) {
            Some(x) => x,
            None => return None,
        },
        None => return None,
    };
    let aud = match read_string_claim(payload, "aud") {
        Some(s) => s,
        None => return None,
    };
    let iss = match read_string_claim(payload, "iss") {
        Some(s) => s,
        None => return None,
    };
    let sub = match read_string_claim(payload, "sub") {
        Some(s) => s,
        None => return None,
    };
    let user_id = match read_string_claim(payload, "user_id") {
        Some(s) => s,
        None => return None,
    };
    if iat > exp {
        return None;
    }
    Some(Claims { exp, iat, aud, iss, sub, user_id })
}

/// Read one string-typed claim field out of a token payload.
fn read_string_claim(payload: &serde_json::Value, name: &str) -> (r: Option<String>)
    ensures
        match r {
            Some(s) => spec_member_str(*payload, name@) == Some(s@),
            None => spec_member_str(*payload, name@) is None,
        },
{
    match json_get(payload, name) {
        Some(v) => match json_as_str(v) {
            Some(s) => Some(s.to_owned()),
            None => None,
        },
        None => None,
    }
}

/// The first failure of resolving a token header against a key set, in the
/// order the verifier checks: a missing key id, then an unapproved
/// algorithm, then a key id that names no key; `None` when a key resolves.
pub open spec fn resolve_failure(header: TokenHeader, keys: Seq<JwkKey>) -> Option<VerifyError> {
    match header.kid {
        None => Some(VerifyError::MissingKeyId),
        Some(kid) => if header.alg != TokenAlgorithm::RS256 {
            Some(VerifyError::ClaimRejected(ClaimReason::WrongAlgorithm))
        } else if !has_key(keys, kid@) {
            Some(VerifyError::UnknownKey)
        } else {
            None
        },
    }
}

/// Algorithm pinning: a header that declares any algorithm but RS256
/// never resolves a key, whatever the key set holds — such a token is
/// rejected before its signature or claims are even looked at, so a
/// valid signature under an unapproved algorithm cannot help it.
pub proof fn lemma_algorithm_pinned(header: TokenHeader, keys: Seq<JwkKey>)
    requires
        header.alg != TokenAlgorithm::RS256,
    ensures
        resolve_failure(header, keys) matches Some(e) && (e == VerifyError::MissingKeyId || e
            == VerifyError::ClaimRejected(ClaimReason::WrongAlgorithm)),
{
}

/// Resolve the signing key a token header names, pinning the algorithm.
///
/// The approved algorithm is hard-coded rather than trusted from the
/// token, and an unknown key id is rejected as is, without forcing a
/// refresh of the key set.
pub fn resolve_key<'a>(header: &TokenHeader, keys: &'a Vec<JwkKey>) -> (r: Result<
    &'a JwkKey,
    VerifyError,
>)
    ensures
        match r {
            Ok(k) => resolve_failure(*header, keys@) is None && (header.kid matches Some(kid)
                && find_key(keys@, kid@) == Some(*k)),
            Err(e) => Some(e) == resolve_failure(*header, keys@),
        },
{
    let kid = match &header.kid {
        Some(kid) => kid,
        None => return Err(VerifyError::MissingKeyId),
    };
    if header.alg != TokenAlgorithm::RS256 {
        return Err(VerifyError::ClaimRejected(ClaimReason::WrongAlgorithm));
    }
    proof {
        lemma_find_key_some(keys@, kid@);
    }
    match lookup_key(keys, kid) {
        Some(k) => Ok(k),
        None => Err(VerifyError::UnknownKey),
    }
}

/// The expected issuer for a project: the provider issuer URL, `/`, and
/// the project identifier.
pub open spec fn spec_expected_iss(project_id: Seq<char>) -> Seq<char> {
    FIREBASE_ISS_URL@ + "/"@ + project_id
}

/// The payload the signature step yields for a token against a key set:
/// the header decoded, the algorithm pinned to RS256, the key id resolved
/// (a later duplicate winning), and the signature checked under that
/// key's RSA components.
pub open spec fn spec_token_payload(token: Seq<char>, keys: Seq<JwkKey>) -> Option<
    serde_json::Value,
> {
    match token_header_of(token) {
        Some(header) => if header.alg == TokenAlgorithm::RS256 {
            match header.kid {
                Some(kid) => match find_key(keys, kid@) {
                    Some(k) => rs256_payload_of(token, k.n@, k.e@),
                    None => None,
                },
                None => None,
            }
        } else {
            None
        },
        None => None,
    }
}

/// The verdict on a signature-checked payload: a payload that is not a
/// well-formed claims object reads as a bad signature, and well-formed
/// claims are held to the policy.
pub open spec fn spec_payload_failure(
    payload: serde_json::Value,
    expected_iss: Seq<char>,
    expected_aud: Seq<char>,
    now: u64,
) -> Option<VerifyError> {
    if !spec_claims_well_formed(payload) {
        Some(VerifyError::ClaimRejected(ClaimReason::BadSignature))
    } else {
        match (
            spec_member_u64(payload, "exp"@),
            spec_member_u64(payload, "iat"@),
            spec_member_str(payload, "aud"@),
            spec_member_str(payload, "iss"@),
        ) {
            (Some(exp), Some(iat), Some(aud), Some(iss)) => match claims_policy_failure_parts(
                exp,
                iat,
                aud,
                iss,
                expected_iss,
                expected_aud,
                now,
            ) {
                Some(reason) => Some(VerifyError::ClaimRejected(reason)),
                None => None,
            },
            _ => Some(VerifyError::ClaimRejected(ClaimReason::BadSignature)),
        }
    }
}

/// The verdict of the whole verification pipeline on a token, against a
/// key set, issuer, audience and clock: the failure it is rejected with,
/// or `None` exactly when the token is accepted.
pub open spec fn spec_verify_failure(
    token: Seq<char>,
    keys: Seq<JwkKey>,
    expected_iss: Seq<char>,
    expected_aud: Seq<char>,
    now: u64,
) -> Option<VerifyError> {
    match token_header_of(token) {
        None => Some(VerifyError::MalformedHeader),
        Some(header) => match resolve_failure(header, keys) {
            Some(e) => Some(e),
            None => match spec_token_payload(token, keys) {
                None => Some(VerifyError::ClaimRejected(ClaimReason::BadSignature)),
                Some(payload) => spec_payload_failure(payload, expected_iss, expected_aud, now),
            },
        },
    }
}

/// Decode a presented token's header segment, verifying nothing: the step
/// a caller takes before touching the key cache, so that a token that is
/// not structurally a token is rejected without a lock or a fetch.
pub fn decode_header(token: &str) -> (r: Result<TokenHeader, VerifyError>)
    ensures
        r is Ok <==> token_header_of(token@) is Some,
        r matches Ok(h) ==> token_header_of(token@) == Some(h),
        r matches Err(e) ==> e == VerifyError::MalformedHeader,
{
    match decode_token_header(token) {
        Some(h) => Ok(h),
        None => Err(VerifyError::MalformedHeader),
    }
}

/// The token verifier for one configured project: accepts exactly the
/// tokens whose signature verifies under a known provider key and whose
/// claims pass the policy for this project.
#[derive(Debug, Clone)]
pub struct FirebaseVerifier {
    project_id: String,
}

impl FirebaseVerifier {
    /// The configured project identifier.
    pub closed spec fn spec_project_id(&self) -> Seq<char> {
        self.project_id@
    }

    /// A verifier for the given project identifier.
    pub fn new(project_id: &str) -> (r: FirebaseVerifier)
        ensures
            r.spec_project_id() == project_id@,
    {
        FirebaseVerifier { project_id: project_id.to_owned() }
    }

    /// The issuer every accepted token must name.
    fn expected_iss(&self) -> (r: String)
        ensures
            r@ == spec_expected_iss(self.spec_project_id()),
    {
        let mut s = String::from_str(FIREBASE_ISS_URL);
        s.append("/");
        s.append(self.project_id.as_str());
        s
    }

    /// The audience every accepted token must name: the project identifier.
    fn expected_aud(&self) -> (r: String)
        ensures
            r@ == self.spec_project_id(),
    {
        self.project_id.clone()
    }

    /// Verify a presented token against a snapshot of the provider's key
    /// set at time `now`.
    ///
    /// The outcome is exactly `spec_verify_failure`'s: accepted if and
    /// only if the token decodes, declares the approved algorithm, names
    /// a key id present in the key set, carries a signature that verifies
    /// under that key, and passes the claim policy for this project — and
    /// on rejection the error is the pipeline's first failure.  On
    /// acceptance the identity wraps exactly the decoded header and the
    /// payload's claim fields.
    pub fn verify_token(&self, token: &str, keys: &Vec<JwkKey>, now: u64) -> (r: Result<
        AuthInfo,
        VerifyError,
    >)
        ensures
            r is Ok <==> spec_verify_failure(
                token@,
                keys@,
                spec_expected_iss(self.spec_project_id()),
                self.spec_project_id(),
                now,
            ) is None,
            r matches Err(e) ==> Some(e) == spec_verify_failure(
                token@,
                keys@,
                spec_expected_iss(self.spec_project_id()),
                self.spec_project_id(),
                now,
            ),
            r matches Ok(auth) ==> {
                &&& Some(auth.spec_header()) == token_header_of(token@)
                &&& auth.spec_header().alg == TokenAlgorithm::RS256
                &&& auth.spec_header().kid matches Some(kid) && has_key(keys@, kid@)
                &&& (spec_token_payload(token@, keys@) matches Some(payload)
                    && spec_claims_match(payload, auth.spec_claims()))
                &&& claims_policy_ok(
                    auth.spec_claims(),
                    spec_expected_iss(self.spec_project_id()),
                    self.spec_project_id(),
                    now,
                )
                &&& auth.spec_claims().iat <= auth.spec_claims().exp
            },
    {
        let header = match decode_token_header(token) {
            Some(h) => h,
            None => return Err(VerifyError::MalformedHeader),
        };
        let key = match resolve_key(&header, keys) {
            Ok(k) => k,
            Err(e) => return Err(e),
        };
        proof {
            assert(spec_token_payload(token@, keys@) == rs256_payload_of(token@, key.n@, key.e@));
        }
        let payload = match check_signature_rs256(token, key.n.as_str(), key.e.as_str()) {
            Some(v) => v,
            None => return Err(VerifyError::ClaimRejected(ClaimReason::BadSignature)),
        };
        let claims = match extract_claims(&payload) {
            Some(c) => c,
            None => return Err(VerifyError::ClaimRejected(ClaimReason::BadSignature)),
        };
        let expected_iss = self.expected_iss();
        let expected_aud = self.expected_aud();
        match validate_claims(&claims, &expected_iss, &expected_aud, now) {
            Ok(()) => Ok(AuthInfo::new(header, claims)),
            Err(reason) => Err(VerifyError::ClaimRejected(reason)),
        }
    }

    /// Authenticate a request that may carry no token at all: no
    /// credential presented is an anonymous result, not an error — only a
    /// presented credential can be rejected, and a presented one gets
    /// exactly `verify_token`'s verdict, never an anonymous pass.
    pub fn verify_optional(&self, token: Option<&str>, keys: &Vec<JwkKey>, now: u64) -> (r:
        Result<Option<AuthInfo>, VerifyError>)
        ensures
            token is None ==> r == Ok::<Option<AuthInfo>, VerifyError>(None),
            token matches Some(t) ==> {
                &&& (r matches Ok(auth) ==> auth is Some)
                &&& (r is Ok <==> spec_verify_failure(
                    t@,
                    keys@,
                    spec_expected_iss(self.spec_project_id()),
                    self.spec_project_id(),
                    now,
                ) is None)
                &&& (r matches Err(e) ==> Some(e) == spec_verify_failure(
                    t@,
                    keys@,
                    spec_expected_iss(self.spec_project_id()),
                    self.spec_project_id(),
                    now,
                ))
            },
            r matches Ok(Some(auth)) ==> token is Some && {
                &&& auth.spec_header().alg == TokenAlgorithm::RS256
                &&& auth.spec_header().kid matches Some(kid) && has_key(keys@, kid@)
                &&& claims_policy_ok(
                    auth.spec_claims(),
                    spec_expected_iss(self.spec_project_id()),
                    self.spec_project_id(),
                    now,
                )
            },
            r matches Err(e) ==> token is Some,
    {
        match token {
            Some(token) => match self.verify_token(token, keys, now) {
                Ok(auth) => Ok(Some(auth)),
                Err(e) => Err(e),
            },
            None => Ok(None),
        }
    }

    /// Verify a presented token against the outcome of a key-set read: a
    /// failed read is reported as a provider-side failure, distinguishable
    /// from every client-facing rejection, and a successful read gets
    /// exactly `verify_token`'s verdict.
    pub fn verify_fetched(&self, token: &str, keys: &Result<Vec<JwkKey>, FetchError>, now: u64) -> (r:
        Result<AuthInfo, VerifyError>)
        ensures
            keys matches Err(e) ==> r == Err::<AuthInfo, VerifyError>(VerifyError::KeyFetch(*e)),
            keys matches Ok(ks) ==> {
                &&& (r is Ok <==> spec_verify_failure(
                    token@,
                    ks@,
                    spec_expected_iss(self.spec_project_id()),
                    self.spec_project_id(),
                    now,
                ) is None)
                &&& (r matches Err(e) ==> Some(e) == spec_verify_failure(
                    token@,
                    ks@,
                    spec_expected_iss(self.spec_project_id()),
                    self.spec_project_id(),
                    now,
                ))
            },
            r matches Ok(auth) ==> keys matches Ok(ks) && {
                &&& auth.spec_header().alg == TokenAlgorithm::RS256
                &&& auth.spec_header().kid matches Some(kid) && has_key(ks@, kid@)
                &&& claims_policy_ok(
                    auth.spec_claims(),
                    spec_expected_iss(self.spec_project_id()),
                    self.spec_project_id(),
                    now,
                )
            },
    {
        match keys {
            Ok(ks) => self.verify_token(token, ks, now),
            Err(e) => Err(VerifyError::KeyFetch(*e)),
        }
    }
}

} // verus!
