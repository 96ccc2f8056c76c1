//! The values that the registration ceremony passes around.
use vstd::prelude::*;

verus! {

/// Identity that a caller claims for a new user. It is echoed into the
/// pending registration and never treated as verified.
#[derive(Clone, Debug)]
pub struct NewUserInfo {
    /// Username.
    pub username: String,
    /// Display name.
    pub display_name: String,
}

/// Why a registration step did not succeed.
#[derive(Clone, Copy, Debug, PartialEq, Eq, Structural)]
pub enum RegistrationError {
    /// The relying party identity is invalid: a startup failure.
    Configuration,
    /// The username or the display name of a new user is empty.
    InvalidUserInfo,
    /// The session store could not be reached.
    Storage,
    /// The session store already holds a record under that session id.
    SessionIdCollision,
    /// No pending registration under that session id: never issued, or
    /// already consumed. The two are deliberately not told apart.
    SessionNotFound,
    /// The pending registration was found, at or after its expiry instant.
    Expired,
    /// The stored record lacks an attribute or holds one of the wrong shape.
    MalformedSession,
    /// The ceremony state could not be turned into text for storage.
    StateEncoding,
    /// The signed response did not verify against the issued challenge.
    CeremonyVerificationFailed,
}

} // verus!
