//! The refusals that the service answers a request with.

use vstd::prelude::*;

verus! {

/// Why a request is refused before its work begins.
#[derive(Clone, Copy, Debug, PartialEq, Eq, Structural)]
pub enum ApiError {
    /// The request makes no sense as it stands.
    BadRequest,
    /// Nobody is logged in.
    Unauthorized,
    /// The user is known and may not do this.
    Forbidden,
}

} // verus!
