//! A value paired with whether it has been verified.

use vstd::prelude::*;

verus! {

/// A value of which the system knows whether it was verified (an email
/// address the user confirmed, a phone number that answered).
#[derive(Debug, Clone, PartialEq, Eq)]
pub enum Verifiable<T> {
    /// The value has been verified.
    Verified(T),
    /// The value has not (yet) been verified.
    Unverified(T),
}

impl<T> Verifiable<T> {
    /// The carried value, whichever state it is in.
    pub open spec fn spec_get(self) -> T {
        match self {
            Verifiable::Verified(inner) => inner,
            Verifiable::Unverified(inner) => inner,
        }
    }

    /// Whether the value has been verified.
    pub open spec fn spec_is_verified(self) -> bool {
        self is Verified
    }

    /// Wrap `inner`, marked verified or not as `verified` says.
    pub fn new(inner: T, verified: bool) -> (r: Verifiable<T>)
        ensures
            r == (if verified {
                Verifiable::Verified(inner)
            } else {
                Verifiable::Unverified(inner)
            }),
    {
        if verified {
            Verifiable::Verified(inner)
        } else {
            Verifiable::Unverified(inner)
        }
    }

    /// The carried value.
    pub fn get(&self) -> (r: &T)
        ensures
            *r == self.spec_get(),
    {
        match self {
            Verifiable::Verified(inner) => inner,
            Verifiable::Unverified(inner) => inner,
        }
    }

    /// The carried value, mutably; writing through the result keeps the
    /// verification state.
    pub fn get_mut(&mut self) -> (r: &mut T)
        ensures
            *r == old(self).spec_get(),
            *final(self) == (match *old(self) {
                Verifiable::Verified(_) => Verifiable::Verified(*final(r)),
                Verifiable::Unverified(_) => Verifiable::Unverified(*final(r)),
            }),
    {
        match self {
            Verifiable::Verified(inner) => inner,
            Verifiable::Unverified(inner) => inner,
        }
    }

    /// The carried value, by move.
    pub fn into_inner(self) -> (r: T)
        ensures
            r == self.spec_get(),
    {
        match self {
            Verifiable::Verified(inner) => inner,
            Verifiable::Unverified(inner) => inner,
        }
    }

    /// Whether the value has been verified.
    pub fn is_verified(&self) -> (r: bool)
        ensures
            r == self.spec_is_verified(),
    {
        match self {
            Verifiable::Verified(_) => true,
            Verifiable::Unverified(_) => false,
        }
    }
}

} // verus!
