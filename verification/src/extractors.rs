//! Who a request comes from, decided from what the session and the database
//! hold.

use crate::error::ApiError;
use vstd::prelude::*;

verus! {

/// A logged-in user, known by identifier.
#[derive(Clone, Copy, Debug, PartialEq, Eq, Structural)]
pub struct AuthUser {
    id: u128,
}

impl AuthUser {
    /// The user's identifier.
    pub closed spec fn user_id(&self) -> u128 {
        self.id
    }

    /// The user with the given identifier.
    pub fn new(id: u128) -> (user: AuthUser)
        ensures
            user.user_id() == id,
    {
        AuthUser { id }
    }

    /// The user's identifier.
    pub fn id(&self) -> (id: u128)
        ensures
            id == self.user_id(),
    {
        self.id
    }

    /// The user of a session: the one whose identifier the session holds.
    /// A session that holds none is refused as unauthorized.
    pub fn from_session(user_id: Option<u128>) -> (user: Result<AuthUser, ApiError>)
        ensures
            user is Ok <==> user_id is Some,
            user matches Ok(u) ==> Some(u.user_id()) == user_id,
            user matches Err(e) ==> e == ApiError::Unauthorized,
    {
        match user_id {
            Some(id) => Ok(AuthUser { id }),
            None => Err(ApiError::Unauthorized),
        }
    }
}

/// The user of a request that anybody may make: the logged-in user, if there
/// is one.
#[derive(Clone, Copy, Debug, PartialEq, Eq, Structural)]
pub struct MaybeAuthUser(pub Option<AuthUser>);

impl MaybeAuthUser {
    /// The user of a session, if it holds one.
    pub fn from_session(user_id: Option<u128>) -> (user: MaybeAuthUser)
        ensures
            user.0 is Some <==> user_id is Some,
            user.0 matches Some(u) ==> Some(u.user_id()) == user_id,
    {
        match user_id {
            Some(id) => MaybeAuthUser(Some(AuthUser { id })),
            None => MaybeAuthUser(None),
        }
    }

    /// The logged-in user, if there is one.
    pub fn into_inner(self) -> (user: Option<AuthUser>)
        ensures
            user == self.0,
    {
        self.0
    }
}

/// A user who may upload: one who has uploaded less than the daily limit
/// over the last day.
#[derive(Clone, Copy, Debug, PartialEq, Eq, Structural)]
pub struct Uploader {
    /// The user's identifier.
    pub id: u128,
    /// The bytes that the user has uploaded over the last day.
    pub bytes_limit: i64,
}

impl Uploader {
    /// Lets a user upload, or not. `uploaded_bytes` is what the user has
    /// uploaded over the last day; where it is not known, the user counts as
    /// having used up the limit. At or over the limit the user is refused.
    pub fn from_usage(
        user: AuthUser,
        uploaded_bytes: Option<i64>,
        daily_limit_bytes: i64,
    ) -> (uploader: Result<Uploader, ApiError>)
        ensures
            uploader == (match uploaded_bytes {
                Some(bytes) if bytes < daily_limit_bytes => Ok::<Uploader, ApiError>(
                    Uploader { id: user.user_id(), bytes_limit: bytes },
                ),
                _ => Err::<Uploader, ApiError>(ApiError::Forbidden),
            }),
    {
        let bytes_limit = match uploaded_bytes {
            Some(bytes) => bytes,
            None => daily_limit_bytes,
        };
        if bytes_limit < daily_limit_bytes {
            Ok(Uploader { id: user.id, bytes_limit })
        } else {
            Err(ApiError::Forbidden)
        }
    }
}

/// A user as the administration routes see one.
#[derive(Debug, PartialEq, Eq)]
pub struct AdminUser {
    name: String,
    is_admin: bool,
}

impl AdminUser {
    /// The user's name.
    pub closed spec fn user_name(&self) -> Seq<char> {
        self.name@
    }

    /// Whether the user is an administrator.
    pub closed spec fn admin(&self) -> bool {
        self.is_admin
    }

    /// The user `name`, an administrator or not.
    pub fn new(name: String, is_admin: bool) -> (user: AdminUser)
        ensures
            user.user_name() == name@,
            user.admin() == is_admin,
    {
        AdminUser { name, is_admin }
    }

    /// The user's name.
    pub fn name(&self) -> (name: &str)
        ensures
            name@ == self.user_name(),
    {
        self.name.as_str()
    }

    /// Whether the user is an administrator.
    pub fn is_admin(&self) -> (is_admin: bool)
        ensures
            is_admin == self.admin(),
    {
        self.is_admin
    }

    /// Lets a user onto the administration routes, or not. `found` is the logged-in
    /// user as the database knows them. Nobody logged in, or nobody known, is
    /// refused as unauthorized; a user who is no administrator, as forbidden.
    pub fn from_lookup(found: Option<AdminUser>) -> (user: Result<AdminUser, ApiError>)
        ensures
            user == (match found {
                Some(u) => if u.admin() {
                    Ok::<AdminUser, ApiError>(u)
                } else {
                    Err::<AdminUser, ApiError>(ApiError::Forbidden)
                },
                None => Err::<AdminUser, ApiError>(ApiError::Unauthorized),
            }),
    {
        match found {
            Some(user) => if user.is_admin {
                Ok(user)
            } else {
                Err(ApiError::Forbidden)
            },
            None => Err(ApiError::Unauthorized),
        }
    }
}

} // verus!
