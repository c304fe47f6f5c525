//! URL slugs.
//!
//! A freshly minted slug is the slugified name followed by a hyphen and a
//! random base64url tail, so that two entities of the same name never share
//! a slug.  A presented slug is accepted only in a fixed shape: it starts
//! with an ASCII letter or digit and continues in letters, digits and
//! hyphens.

use vstd::prelude::*;
use vstd::string::StrSliceExecFns;
use vstd::string::StringExecFns;

use crate::jwk::is_b64url_char;
use crate::service::input::InputError;
use crate::text::b64url_encode_of;
use crate::text::encode_b64url;

verus! {

/// What the `slug` crate turns `s` into; depends on the text alone.
pub uninterp spec fn slug_of(s: Seq<char>) -> Seq<char>;

/// Relies on `slug::slugify`.
#[verifier::external_body]
fn slugify_str(s: &str) -> (r: String)
    ensures
        r@ == slug_of(s@),
{
    slug::slugify(s)
}

/// Relies on `rand::random` for twelve bytes of entropy.
#[verifier::external_body]
fn random_bytes() -> (r: Vec<u8>)
    ensures
        r@.len() == 12,
{
    let bytes: [u8; 12] = rand::random();
    bytes.to_vec()
}

/// Whether `c` is an ASCII letter or digit.
pub open spec fn is_ascii_alnum(c: char) -> bool {
    let u = c as u32;
    (65 <= u && u <= 90) || (97 <= u && u <= 122) || (48 <= u && u <= 57)
}

/// Whether `c` may appear in a presented slug.
pub open spec fn is_slug_char(c: char) -> bool {
    is_ascii_alnum(c) || c as u32 == 45
}

/// The shape a presented slug must have: non-empty, opening with a letter
/// or digit, and all letters, digits and hyphens.
pub open spec fn is_slug_text(s: Seq<char>) -> bool {
    &&& s.len() > 0
    &&& is_ascii_alnum(s[0])
    &&& forall|i: int| 0 <= i < s.len() ==> is_slug_char(s[i])
}

/// Whether `c` is an ASCII letter or digit.
fn ascii_alnum(c: char) -> (r: bool)
    ensures
        r == is_ascii_alnum(c),
{
    let u = c as u32;
    (65 <= u && u <= 90) || (97 <= u && u <= 122) || (48 <= u && u <= 57)
}

/// Whether `s` has the shape of a presented slug.
fn check_slug_text(s: &str) -> (r: bool)
    ensures
        r == is_slug_text(s@),
{
    let len = s.unicode_len();
    if len == 0 {
        return false;
    }
    if !ascii_alnum(s.get_char(0)) {
        return false;
    }
    let mut ok = true;
    for c in it: s.chars()
        invariant
            it.seq() == s@,
            ok <==> (forall|i: int| 0 <= i < it.index() ==> is_slug_char(it.seq()[i])),
    {
        let u = c as u32;
        let good = (65 <= u && u <= 90) || (97 <= u && u <= 122) || (48 <= u && u <= 57) || u
            == 45;
        assert(good == is_slug_char(c));
        ok = ok && good;
    }
    ok
}

/// A URL slug.
#[derive(Debug, Clone, PartialEq, Eq)]
pub struct Slug(String);

impl View for Slug {
    type V = Seq<char>;

    closed spec fn view(&self) -> Seq<char> {
        self.0@
    }
}

/// A random sixteen-character base64url tail: the base64url encoding of
/// twelve drawn bytes.
fn generate_tail() -> (r: String)
    ensures
        r@.len() == 16,
        forall|i: int| 0 <= i < r@.len() ==> is_b64url_char(r@[i]),
        exists|raw: Seq<u8>|
            #![trigger b64url_encode_of(raw)]
            raw.len() == 12 && r@ == b64url_encode_of(raw),
{
    let bytes = random_bytes();
    let tail = encode_b64url(&bytes);
    proof {
        assert(bytes@.len() == 12 && tail@ == b64url_encode_of(bytes@));
    }
    tail
}

impl Default for Slug {
    /// A slug that is nothing but a random tail: the base64url encoding
    /// of twelve drawn bytes.
    fn default() -> (r: Slug)
        ensures
            r@.len() == 16,
            exists|raw: Seq<u8>|
                #![trigger b64url_encode_of(raw)]
                raw.len() == 12 && r@ == b64url_encode_of(raw),
    {
        Slug(generate_tail())
    }
}

impl Slug {
    /// Mint a slug for a fresh entity: the slugified name, a hyphen, and a
    /// random sixteen-character tail — or only the tail when the name is
    /// empty.
    pub fn new(name: &str) -> (r: Slug)
        ensures
            name@.len() == 0 ==> r@.len() == 16 && (exists|raw: Seq<u8>|
                #![trigger b64url_encode_of(raw)]
                raw.len() == 12 && r@ == b64url_encode_of(raw)),
            name@.len() > 0 ==> {
                let head = slug_of(name@);
                &&& r@.len() == head.len() + 17
                &&& r@.subrange(0, head.len() as int) == head
                &&& r@[head.len() as int] == '-'
                &&& (exists|raw: Seq<u8>|
                    #![trigger b64url_encode_of(raw)]
                    raw.len() == 12 && r@.subrange(head.len() as int + 1, r@.len() as int)
                        == b64url_encode_of(raw))
                &&& forall|i: int| head.len() as int + 1 <= i < r@.len() ==> is_b64url_char(r@[i])
            },
    {
        if s_is_empty(name) {
            return Slug::default();
        }
        let mut s = slugify_str(name);
        let ghost head = s@;
        s.append("-");
        let tail = generate_tail();
        s.append(tail.as_str());
        proof {
            reveal_strlit("-");
            assert(s@.subrange(0, head.len() as int) =~= head);
            assert(s@.subrange(head.len() as int + 1, s@.len() as int) =~= tail@);
            assert forall|i: int| head.len() as int + 1 <= i < s@.len() implies is_b64url_char(
                s@[i],
            ) by {
                assert(s@[i] == tail@[i - head.len() as int - 1]);
            }
        }
        Slug(s)
    }

    /// Accept a presented slug exactly when it has the accepted shape.
    pub fn try_from(value: String) -> (r: Result<Slug, InputError>)
        ensures
            r is Ok <==> is_slug_text(value@),
            r matches Ok(s) ==> s@ == value@,
            r matches Err(e) ==> e == InputError::BadFormat,
    {
        if !check_slug_text(value.as_str()) {
            return Err(InputError::BadFormat);
        }
        Ok(Slug(value))
    }

    /// Accept a presented slug, from a borrowed string.
    pub fn from_str(s: &str) -> (r: Result<Slug, InputError>)
        ensures
            r is Ok <==> is_slug_text(s@),
            r matches Ok(v) ==> v@ == s@,
            r matches Err(e) ==> e == InputError::BadFormat,
    {
        Slug::try_from(s.to_owned())
    }

    /// The slug text.
    pub fn as_str(&self) -> (r: &str)
        ensures
            r@ == self@,
    {
        self.0.as_str()
    }

    /// The slug text.
    pub fn as_string(&self) -> (r: &String)
        ensures
            r@ == self@,
    {
        &self.0
    }

    /// The slug text, by move.
    pub fn into_string(self) -> (r: String)
        ensures
            r@ == self@,
    {
        self.0
    }
}

/// Whether `s` holds no characters.
fn s_is_empty(s: &str) -> (r: bool)
    ensures
        r == (s@.len() == 0),
{
    s.is_empty()
}

} // verus!
