//! Validated email addresses.

use vstd::prelude::*;

use crate::service::input::InputError;
use crate::service::verifiable::Verifiable;

verus! {

/// Whether the `mailchecker` crate accepts `s` as an email address:
/// syntactic validity plus its list of disposable domains.  The verdict
/// depends on the text alone.
pub uninterp spec fn mail_ok_of(s: Seq<char>) -> bool;

/// Relies on `mailchecker::is_valid`.
#[verifier::external_body]
fn check_email(s: &str) -> (r: bool)
    ensures
        r == mail_ok_of(s@),
{
    mailchecker::is_valid(s)
}

/// A structurally valid email address.
#[derive(Debug, Clone, PartialEq, Eq)]
pub struct Email(String);

impl View for Email {
    type V = Seq<char>;

    closed spec fn view(&self) -> Seq<char> {
        self.0@
    }
}

impl Email {
    /// Accept a presented address exactly when the checker does.
    pub fn try_from(value: String) -> (r: Result<Email, InputError>)
        ensures
            r is Ok <==> mail_ok_of(value@),
            r matches Ok(e) ==> e@ == value@,
            r matches Err(e) ==> e == InputError::BadFormat,
    {
        if !check_email(value.as_str()) {
            return Err(InputError::BadFormat);
        }
        Ok(Email(value))
    }

    /// Accept a presented address, from a borrowed string.
    pub fn from_str(s: &str) -> (r: Result<Email, InputError>)
        ensures
            r is Ok <==> mail_ok_of(s@),
            r matches Ok(e) ==> e@ == s@,
            r matches Err(e) ==> e == InputError::BadFormat,
    {
        Email::try_from(s.to_owned())
    }

    /// The address text.
    pub fn as_str(&self) -> (r: &str)
        ensures
            r@ == self@,
    {
        self.0.as_str()
    }

    /// The address text.
    pub fn as_string(&self) -> (r: &String)
        ensures
            r@ == self@,
    {
        &self.0
    }

    /// The address text, by move.
    pub fn into_string(self) -> (r: String)
        ensures
            r@ == self@,
    {
        self.0
    }

    /// Unwrap an address of which the verification state was tracked.
    pub fn from_verifiable(email: Verifiable<Email>) -> (r: Email)
        ensures
            r == email.spec_get(),
    {
        email.into_inner()
    }
}

} // verus!
