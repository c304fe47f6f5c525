//! Users on the wire: the input object of the user update mutation, with
//! the validation that turns it into a service request.

use vstd::prelude::*;
use vstd::utf8::encode_utf8;

use crate::graphql::InputFault;
use crate::service::input::INPUT_STRING_MAX_LENGTH;
use crate::service::input::InputString;
use crate::service::user::UpdateUserRequest;
use crate::text::parse_url;
use crate::text::trim_of;
use crate::text::url_norm_of;
use crate::uid::UuidValue;

verus! {

/// The queries over users.
#[derive(Debug, Clone, Copy, PartialEq, Eq, Hash, Structural)]
pub struct UserQueries;

/// The mutations over users.
#[derive(Debug, Clone, Copy, PartialEq, Eq, Hash, Structural)]
pub struct UserMutations;

/// Change the signed-in user's account, as a caller hands it in; absent
/// fields stay as they are.
#[derive(Debug, Clone, PartialEq, Eq)]
pub struct UpdateUserInput {
    /// The user's new first name.
    pub first_name: Option<String>,
    /// The user's new last name.
    pub last_name: Option<String>,
    pub about: Option<String>,
    pub image_url: Option<String>,
}

/// Whether every validated field of a user update passes.
pub open spec fn spec_update_user_ok(input: UpdateUserInput) -> bool {
    &&& match input.first_name {
        Some(name) => encode_utf8(name@).len() as usize <= INPUT_STRING_MAX_LENGTH,
        None => true,
    }
    &&& match input.last_name {
        Some(name) => encode_utf8(name@).len() as usize <= INPUT_STRING_MAX_LENGTH,
        None => true,
    }
    &&& match input.about {
        Some(about) => encode_utf8(about@).len() as usize <= INPUT_STRING_MAX_LENGTH,
        None => true,
    }
    &&& match input.image_url {
        Some(url) => url_norm_of(url@) is Some,
        None => true,
    }
}

impl UpdateUserInput {
    /// Validate the input into a service request for the account
    /// `user_id` — the signed-in user, as only they may change their
    /// account.
    pub fn into_request(self, user_id: UuidValue) -> (r: Result<UpdateUserRequest, InputFault>)
        ensures
            r is Ok <==> spec_update_user_ok(self),
            r matches Ok(req) ==> {
                &&& req.user_id == user_id
                &&& match self.first_name {
                    Some(name) => req.first_name matches Some(n) && n@ == trim_of(name@),
                    None => req.first_name is None,
                }
                &&& match self.last_name {
                    Some(name) => req.last_name matches Some(n) && n@ == trim_of(name@),
                    None => req.last_name is None,
                }
                &&& match self.about {
                    Some(about) => req.about matches Some(a) && a@ == trim_of(about@),
                    None => req.about is None,
                }
                &&& match self.image_url {
                    Some(url) => req.image_url matches Some(u) && url_norm_of(url@) == Some(u@),
                    None => req.image_url is None,
                }
                &&& req.email is None
                &&& req.phone is None
            },
            r matches Err(fault) ==> match fault {
                InputFault::InvalidFirstName => self.first_name matches Some(name)
                    && encode_utf8(name@).len() as usize > INPUT_STRING_MAX_LENGTH,
                InputFault::InvalidLastName => self.last_name matches Some(name) && encode_utf8(
                    name@,
                ).len() as usize > INPUT_STRING_MAX_LENGTH,
                InputFault::InvalidAbout => self.about matches Some(about) && encode_utf8(
                    about@,
                ).len() as usize > INPUT_STRING_MAX_LENGTH,
                InputFault::InvalidImageUrl => self.image_url matches Some(url) && url_norm_of(
                    url@,
                ) is None,
                _ => false,
            },
    {
        let first_name = match self.first_name {
            Some(name) => match InputString::try_from(name) {
                Ok(name) => Some(name),
                Err(_) => return Err(InputFault::InvalidFirstName),
            },
            None => None,
        };
        let last_name = match self.last_name {
            Some(name) => match InputString::try_from(name) {
                Ok(name) => Some(name),
                Err(_) => return Err(InputFault::InvalidLastName),
            },
            None => None,
        };
        let about = match self.about {
            Some(about) => match InputString::try_from(about) {
                Ok(about) => Some(about),
                Err(_) => return Err(InputFault::InvalidAbout),
            },
            None => None,
        };
        let image_url = match self.image_url {
            Some(url) => match parse_url(url.as_str()) {
                Some(url) => Some(url),
                None => return Err(InputFault::InvalidImageUrl),
            },
            None => None,
        };
        Ok(
            UpdateUserRequest {
                user_id,
                first_name,
                last_name,
                about,
                image_url,
                email: None,
                phone: None,
            },
        )
    }
}

} // verus!
