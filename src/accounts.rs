use vstd::prelude::*;
use vstd::utf8::encode_utf8;

use crate::address::Address;

verus! {

/// Longest service or key name, in bytes.
pub const MAX_NAME_LEN: usize = 32;

/// Most scopes one key may carry.
pub const MAX_SCOPES: usize = 8;

/// Longest scope, in bytes.
pub const SCOPE_LEN: usize = 16;

/// The length of a string in UTF-8 bytes, as `str::len` reports it.
pub open spec fn byte_len(s: Seq<char>) -> nat {
    (encode_utf8(s).len() as usize) as nat
}

/// The scope that matches every requested scope.
pub open spec fn wildcard() -> Seq<char> {
    seq!['*']
}

/// Whether two identities are the same.
pub open spec fn same(a: Address, b: Address) -> bool {
    a.bytes@ == b.bytes@
}

/// Whether an optional expiration has been reached at `now`.
pub open spec fn expired(expires_at: Option<i64>, now: int) -> bool {
    match expires_at {
        Some(e) => now >= e,
        None => false,
    }
}

/// The registry record of one service: its policy and its aggregate key counts.
#[derive(Clone, Debug)]
pub struct Service {
    /// The principal that administers the service.
    pub authority: Address,
    /// Display name.
    pub name: String,
    /// Requests per day given to keys created without their own limit.
    pub default_rate_limit: u64,
    /// Keys ever created; also the sequence number of the next key.
    pub total_keys: u64,
    /// Keys currently active.
    pub active_keys: u64,
}

impl Service {
    pub open spec fn wf(&self) -> bool {
        &&& byte_len(self.name@) <= MAX_NAME_LEN
        &&& self.active_keys <= self.total_keys
    }
}

/// The ledger record of one key: scopes, limits, usage counters and state.
#[derive(Clone, Debug)]
pub struct ApiKey {
    /// Address of the owning service.
    pub service: Address,
    /// The principal the key was issued to.
    pub owner: Address,
    /// The service's `total_keys` when the key was created.
    pub key_index: u64,
    /// Display name.
    pub name: String,
    /// Granted scopes; `"*"` grants every scope.
    pub scopes: Vec<String>,
    /// Exclusive bound on `requests_today`.
    pub rate_limit: u64,
    /// Requests counted in the day bucket `last_request_day`.
    pub requests_today: u64,
    /// Requests ever counted, saturating at the maximum.
    pub total_requests: u64,
    /// Day bucket of the last counted request.
    pub last_request_day: i64,
    /// Creation time, in seconds.
    pub created_at: i64,
    /// Expiration time in seconds; `None` never expires.
    pub expires_at: Option<i64>,
    /// Whether the key is active (not revoked).
    pub is_active: bool,
}

impl ApiKey {
    pub open spec fn wf(&self) -> bool {
        &&& byte_len(self.name@) <= MAX_NAME_LEN
        &&& scopes_ok(self.scopes@)
    }

    /// Whether the key has expired at `now`.
    pub open spec fn expired_at(&self, now: int) -> bool {
        expired(self.expires_at, now)
    }

    /// Whether the scopes grant `required`, verbatim or through the wildcard.
    pub open spec fn grants(&self, required: Seq<char>) -> bool {
        exists|i: int|
            0 <= i < self.scopes@.len() && (#[trigger] self.scopes@[i]@ == required
                || self.scopes@[i]@ == wildcard())
    }
}

/// Whether a scope list respects the count and length bounds.
pub open spec fn scopes_ok(scopes: Seq<String>) -> bool {
    &&& scopes.len() <= MAX_SCOPES
    &&& forall|i: int| 0 <= i < scopes.len() ==> byte_len(#[trigger] scopes[i]@) <= SCOPE_LEN
}

} // verus!
