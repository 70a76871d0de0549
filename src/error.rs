use vstd::prelude::*;

verus! {

/// Every way an operation on a service or a key can be rejected.
#[derive(Clone, Copy, Debug, PartialEq, Eq, Structural)]
pub enum ErrorCode {
    NameTooLong,
    TooManyScopes,
    ScopeTooLong,
    ExpirationInPast,
    KeyInactive,
    KeyExpired,
    RateLimitExceeded,
    InsufficientPermissions,
    KeyAlreadyRevoked,
    KeyAlreadyActive,
    ServiceMismatch,
    Unauthorized,
}

} // verus!
