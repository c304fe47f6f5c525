//! The request-scoped context: who is calling.

use vstd::prelude::*;

use crate::service::user::User;

verus! {

/// Who a request is executed for.
#[derive(Debug, Clone)]
pub enum ContextViewer {
    /// A signed-in user.
    User(User),
    /// A caller that authenticated but has no account.
    Anonymous,
}

/// A request-scoped context.
#[derive(Debug, Clone)]
pub struct Context {
    /// The current authenticated caller, if any.
    pub viewer: Option<ContextViewer>,
}

impl Default for Context {
    /// The context of an unauthenticated request.
    fn default() -> (r: Context)
        ensures
            r.viewer is None,
    {
        Context { viewer: None }
    }
}

impl Context {
    /// Whether the caller acts with internal authority: the system itself
    /// (no viewer), an anonymous caller is not involved — concretely, a
    /// context without a signed-in non-admin user.
    pub open spec fn spec_is_internal(self) -> bool {
        match self.viewer {
            Some(ContextViewer::User(user)) => user.is_admin,
            _ => true,
        }
    }

    /// The signed-in user, if the viewer is one.
    pub open spec fn spec_viewing_user(self) -> Option<User> {
        match self.viewer {
            Some(ContextViewer::User(user)) => Some(user),
            _ => None,
        }
    }

    /// The same request, carried out with internal authority.
    pub fn internal(&self) -> (r: Context)
        ensures
            r.viewer is None,
            r.spec_is_internal(),
    {
        Context { viewer: None }
    }

    /// Whether the caller acts with internal authority.
    pub fn is_internal(&self) -> (r: bool)
        ensures
            r == self.spec_is_internal(),
    {
        match &self.viewer {
            Some(ContextViewer::User(user)) => user.is_admin,
            _ => true,
        }
    }

    /// The signed-in user, if the viewer is one.
    pub fn viewing_user(&self) -> (r: Option<&User>)
        ensures
            match r {
                Some(user) => self.spec_viewing_user() == Some(*user),
                None => self.spec_viewing_user() is None,
            },
    {
        match &self.viewer {
            Some(ContextViewer::User(user)) => Some(user),
            _ => None,
        }
    }
}

} // verus!
