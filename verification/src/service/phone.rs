//! Validated phone numbers.

use vstd::prelude::*;

use crate::service::input::InputError;
use crate::service::verifiable::Verifiable;

verus! {

/// What the `phonenumber` crate normalizes `s` into: the formatted text of
/// the parsed number, or `None` when `s` is not a phone number.  The
/// result depends on the text alone (the crate's metadata is fixed per
/// version).
pub uninterp spec fn phone_norm_of(s: Seq<char>) -> Option<Seq<char>>;

/// Relies on `phonenumber::parse` (with no default country) and
/// `PhoneNumber::format`.
#[verifier::external_body]
fn normalize_phone(s: &str) -> (r: Option<String>)
    ensures
        match r {
            Some(p) => phone_norm_of(s@) == Some(p@),
            None => phone_norm_of(s@) is None,
        },
{
    match phonenumber::parse(None, s) {
        Ok(number) => Some(number.format().to_string()),
        Err(_) => None,
    }
}

/// A structurally valid phone number, held in normalized form.
#[derive(Debug, Clone, PartialEq, Eq)]
pub struct Phone(String);

impl View for Phone {
    type V = Seq<char>;

    closed spec fn view(&self) -> Seq<char> {
        self.0@
    }
}

impl Phone {
    /// Accept a presented number exactly when it parses, keeping the
    /// normalized form.
    pub fn try_from(value: String) -> (r: Result<Phone, InputError>)
        ensures
            r is Ok <==> phone_norm_of(value@) is Some,
            r matches Ok(p) ==> phone_norm_of(value@) == Some(p@),
            r matches Err(e) ==> e == InputError::BadFormat,
    {
        match normalize_phone(value.as_str()) {
            Some(normalized) => Ok(Phone(normalized)),
            None => Err(InputError::BadFormat),
        }
    }

    /// Accept a presented number, from a borrowed string.
    pub fn from_str(s: &str) -> (r: Result<Phone, InputError>)
        ensures
            r is Ok <==> phone_norm_of(s@) is Some,
            r matches Ok(p) ==> phone_norm_of(s@) == Some(p@),
            r matches Err(e) ==> e == InputError::BadFormat,
    {
        Phone::try_from(s.to_owned())
    }

    /// The normalized number.
    pub fn as_str(&self) -> (r: &str)
        ensures
            r@ == self@,
    {
        self.0.as_str()
    }

    /// The normalized number.
    pub fn as_string(&self) -> (r: &String)
        ensures
            r@ == self@,
    {
        &self.0
    }

    /// The normalized number, by move.
    pub fn into_string(self) -> (r: String)
        ensures
            r@ == self@,
    {
        self.0
    }

    /// Unwrap a number of which the verification state was tracked.
    pub fn from_verifiable(phone: Verifiable<Phone>) -> (r: Phone)
        ensures
            r == phone.spec_get(),
    {
        phone.into_inner()
    }
}

} // verus!
