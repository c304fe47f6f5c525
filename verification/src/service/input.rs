//! Sanitized user input.

use vstd::prelude::*;
use vstd::string::StringSliceAdditionalSpecFns;
use vstd::utf8::encode_utf8;

use crate::text::trim_of;
use crate::text::trim_str;

verus! {

/// The longest input, in bytes, a caller may hand in.
pub const INPUT_STRING_MAX_LENGTH: usize = 1000;

/// Why a presented value was rejected.
#[derive(Debug, Clone, Copy, PartialEq, Eq, Structural)]
pub enum InputError {
    /// The value does not have the required shape.
    BadFormat,
    /// The value exceeds the accepted length.
    TooLong,
}

/// A user-inputted string, bounded in byte length and trimmed of
/// surrounding whitespace.
#[derive(Debug, Clone, PartialEq, Eq)]
pub struct InputString(String);

impl View for InputString {
    type V = Seq<char>;

    closed spec fn view(&self) -> Seq<char> {
        self.0@
    }
}

impl InputString {
    /// Sanitize a presented string: reject one longer than
    /// `INPUT_STRING_MAX_LENGTH` bytes, and keep the rest trimmed.
    pub fn from_str(s: &str) -> (r: Result<InputString, InputError>)
        ensures
            r is Ok <==> s.spec_bytes().len() as usize <= INPUT_STRING_MAX_LENGTH,
            r matches Ok(v) ==> v@ == trim_of(s@),
            r matches Err(e) ==> e == InputError::TooLong,
    {
        if s.len() > INPUT_STRING_MAX_LENGTH {
            return Err(InputError::TooLong);
        }
        Ok(InputString(trim_str(s)))
    }

    /// Sanitize a presented string, by value.
    pub fn try_from(value: String) -> (r: Result<InputString, InputError>)
        ensures
            r is Ok <==> encode_utf8(value@).len() as usize <= INPUT_STRING_MAX_LENGTH,
            r matches Ok(v) ==> v@ == trim_of(value@),
            r matches Err(e) ==> e == InputError::TooLong,
    {
        InputString::from_str(value.as_str())
    }

    /// The sanitized text.
    pub fn as_str(&self) -> (r: &str)
        ensures
            r@ == self@,
    {
        self.0.as_str()
    }

    /// The sanitized text.
    pub fn as_string(&self) -> (r: &String)
        ensures
            r@ == self@,
    {
        &self.0
    }

    /// The sanitized text, by move.
    pub fn into_string(self) -> (r: String)
        ensures
            r@ == self@,
    {
        self.0
    }

    /// Whether nothing is left after sanitizing.
    pub fn is_empty(&self) -> (r: bool)
        ensures
            r == (self@.len() == 0),
    {
        self.0.as_str().is_empty()
    }

    /// Keep the value only when something is left after sanitizing.
    pub fn discard_empty(self) -> (r: Option<InputString>)
        ensures
            match r {
                Some(v) => v@ == self@ && self@.len() > 0,
                None => self@.len() == 0,
            },
    {
        if !self.is_empty() {
            Some(self)
        } else {
            None
        }
    }
}

} // verus!
