//! User accounts: the entity, the request shapes, and the pure parts of
//! the user operations — authorization decisions, account construction and
//! update merging.  Loading and storing accounts stays with the caller.

use vstd::prelude::*;
use vstd::string::StringExecFns;

use crate::service::context::Context;
use crate::service::email::Email;
use crate::service::input::InputString;
use crate::service::meta::Meta;
use crate::service::phone::Phone;
use crate::service::slug::Slug;
use crate::service::verifiable::Verifiable;
use crate::uid::UuidValue;

verus! {

/// A user account.
#[derive(Debug, Clone)]
pub struct User {
    /// The account's identifier.
    pub id: UuidValue,
    /// When the account was created, in epoch seconds.
    pub created_at: u64,
    /// When the account last changed, in epoch seconds.
    pub updated_at: u64,
    /// The user's first name.
    pub first_name: String,
    /// The user's last name.
    pub last_name: String,
    /// The account's URL slug.
    pub slug: Slug,
    /// Free-form text about the user.
    pub about: Option<String>,
    /// A profile image URL, as text.
    pub image_url: Option<String>,
    /// The account's email address, with its verification state.
    pub email: Option<Verifiable<Email>>,
    /// The account's phone number, with its verification state.
    pub phone: Option<Verifiable<Phone>>,
    /// The identity-provider subject this account belongs to.
    pub firebase_id: String,
    /// Whether the user administrates the system.
    pub is_admin: bool,
}

impl User {
    /// The user's full name: first name, a space, last name.
    pub fn name(&self) -> (r: String)
        ensures
            r@ == self.first_name@ + " "@ + self.last_name@,
    {
        let mut s = self.first_name.clone();
        s.append(" ");
        s.append(self.last_name.as_str());
        s
    }
}

/// Fetch one account by its identifier.
#[derive(Debug, Clone, Copy, PartialEq, Eq, Structural)]
pub struct GetUserRequest {
    /// The account to fetch.
    pub user_id: UuidValue,
}

/// Fetch one account by its URL slug.
#[derive(Debug, Clone, PartialEq, Eq)]
pub struct GetUserBySlugRequest {
    /// The slug to look up.
    pub slug: Slug,
}

/// Fetch one account by the identity-provider subject it belongs to.
#[derive(Debug, Clone, PartialEq, Eq)]
pub struct GetUserByFirebaseIdRequest {
    /// The provider-scoped subject identifier.
    pub firebase_id: String,
}

/// Open a new account.
#[derive(Debug, Clone)]
pub struct CreateUserRequest {
    /// The user's first name.
    pub first_name: InputString,
    /// The user's last name.
    pub last_name: InputString,
    /// Free-form text about the user.
    pub about: Option<InputString>,
    /// A profile image URL, as text.
    pub image_url: Option<String>,
    /// The account's email address, with its verification state.
    pub email: Option<Verifiable<Email>>,
    /// The account's phone number, with its verification state.
    pub phone: Option<Verifiable<Phone>>,
    /// The identity-provider subject the account belongs to.
    pub firebase_id: String,
    /// Whether the user administrates the system.
    pub is_admin: bool,
}

/// Change an existing account; absent fields stay as they are.
#[derive(Debug, Clone)]
pub struct UpdateUserRequest {
    /// The account to change.
    pub user_id: UuidValue,
    /// A new first name, if any.
    pub first_name: Option<InputString>,
    /// A new last name, if any.
    pub last_name: Option<InputString>,
    /// New about text, if any; empty text clears the field.
    pub about: Option<InputString>,
    /// A new profile image URL, if any.
    pub image_url: Option<String>,
    /// A new email address, if any.
    pub email: Option<Verifiable<Email>>,
    /// A new phone number, if any.
    pub phone: Option<Verifiable<Phone>>,
}

/// Whether `context` may edit the account `user_id`: internal callers may,
/// and a signed-in user may edit themselves.
pub open spec fn spec_can_edit_user(context: Context, user_id: UuidValue) -> bool {
    ||| context.spec_is_internal()
    ||| match context.spec_viewing_user() {
        Some(viewer) => viewer.id == user_id,
        None => false,
    }
}

/// Whether `context` may view the account `user_id`: exactly those who may
/// edit it.
pub open spec fn spec_can_view_user(context: Context, user_id: UuidValue) -> bool {
    spec_can_edit_user(context, user_id)
}

/// Decide whether `context` may edit the account `user_id`.
pub fn can_edit_user(context: &Context, user_id: UuidValue) -> (r: bool)
    ensures
        r == spec_can_edit_user(*context, user_id),
{
    if context.is_internal() {
        return true;
    }
    match context.viewing_user() {
        Some(viewer) => viewer.id.hi == user_id.hi && viewer.id.lo == user_id.lo,
        None => false,
    }
}

/// Decide whether `context` may view the account `user_id`.
pub fn can_view_user(context: &Context, user_id: UuidValue) -> (r: bool)
    ensures
        r == spec_can_view_user(*context, user_id),
{
    if context.is_internal() {
        return true;
    }
    can_edit_user(context, user_id)
}

impl CreateUserRequest {
    /// Build the account a creation request describes, under the given
    /// metadata.  The slug is minted from the full name, so it carries a
    /// random tail and is not pinned here.
    pub fn build_user(self, meta: Meta) -> (r: User)
        ensures
            r.id == meta.id,
            r.created_at == meta.created_at,
            r.updated_at == meta.updated_at,
            r.first_name@ == self.first_name@,
            r.last_name@ == self.last_name@,
            match self.about {
                Some(about) => r.about matches Some(s) && s@ == about@,
                None => r.about is None,
            },
            r.image_url == self.image_url,
            r.email == self.email,
            r.phone == self.phone,
            r.firebase_id == self.firebase_id,
            r.is_admin == self.is_admin,
    {
        let first_name = self.first_name.into_string();
        let last_name = self.last_name.into_string();
        let mut name = first_name.clone();
        name.append(" ");
        name.append(last_name.as_str());
        let slug = Slug::new(name.as_str());
        let about = match self.about {
            Some(about) => Some(about.into_string()),
            None => None,
        };
        User {
            id: meta.id,
            created_at: meta.created_at,
            updated_at: meta.updated_at,
            first_name,
            last_name,
            slug,
            about,
            image_url: self.image_url,
            email: self.email,
            phone: self.phone,
            firebase_id: self.firebase_id,
            is_admin: self.is_admin,
        }
    }
}

impl UpdateUserRequest {
    /// Merge an update into an account: present fields replace the old
    /// values, absent fields keep them, and empty about text clears the
    /// field.
    pub fn apply(self, user: User) -> (r: User)
        ensures
            r.id == user.id,
            r.created_at == user.created_at,
            r.updated_at == user.updated_at,
            r.slug == user.slug,
            r.firebase_id == user.firebase_id,
            r.is_admin == user.is_admin,
            match self.first_name {
                Some(name) => r.first_name@ == name@,
                None => r.first_name == user.first_name,
            },
            match self.last_name {
                Some(name) => r.last_name@ == name@,
                None => r.last_name == user.last_name,
            },
            match self.about {
                Some(about) => if about@.len() > 0 {
                    r.about matches Some(s) && s@ == about@
                } else {
                    r.about is None
                },
                None => r.about == user.about,
            },
            match self.image_url {
                Some(url) => r.image_url == Some(url),
                None => r.image_url == user.image_url,
            },
            match self.email {
                Some(email) => r.email == Some(email),
                None => r.email == user.email,
            },
            match self.phone {
                Some(phone) => r.phone == Some(phone),
                None => r.phone == user.phone,
            },
    {
        let mut user = user;
        if let Some(name) = self.first_name {
            user.first_name = name.into_string();
        }
        if let Some(name) = self.last_name {
            user.last_name = name.into_string();
        }
        if let Some(about) = self.about {
            user.about = match about.discard_empty() {
                Some(about) => Some(about.into_string()),
                None => None,
            };
        }
        if let Some(url) = self.image_url {
            user.image_url = Some(url);
        }
        if let Some(email) = self.email {
            user.email = Some(email);
        }
        if let Some(phone) = self.phone {
            user.phone = Some(phone);
        }
        user
    }
}

} // verus!
