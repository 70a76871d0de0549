use vstd::prelude::*;
use vstd::string::*;

use crate::accounts::{same, wildcard, ApiKey, Service};
use crate::address::Address;
use crate::authorization::{authorize, check_membership, holds_role, Role};
use crate::error::ErrorCode;
use crate::usage::{admit_request, admits, rolled_over};
use crate::validation::{check_name, check_scopes, name_verdict, scopes_verdict};

verus! {

/// The records and principal taking part in creating a service.
pub struct InitializeService {
    /// The principal that will administer the new service.
    pub authority: Address,
}

/// The records and principal taking part in creating a key.
pub struct CreateApiKey {
    pub service_address: Address,
    pub service: Service,
    /// The principal the key is issued to.
    pub owner: Address,
}

/// The records and principal taking part in counting a request.
pub struct RecordRequest {
    pub service_address: Address,
    pub service: Service,
    pub api_key: ApiKey,
    /// Must be the service's authority.
    pub authority: Address,
}

/// The records taking part in a scope check.
pub struct ValidateScope {
    pub service_address: Address,
    pub service: Service,
    pub api_key: ApiKey,
}

/// The records and principal taking part in revoking a key.
pub struct RevokeKey {
    pub service_address: Address,
    pub service: Service,
    pub api_key: ApiKey,
    /// Must be the key's owner or the service's authority.
    pub signer: Address,
}

/// The records and principal taking part in reactivating a key.
pub struct ReactivateKey {
    pub service_address: Address,
    pub service: Service,
    pub api_key: ApiKey,
    /// Must be the key's owner or the service's authority.
    pub signer: Address,
}

/// The records and principal taking part in changing a key's rate limit.
pub struct UpdateRateLimit {
    pub service_address: Address,
    pub service: Service,
    pub api_key: ApiKey,
    /// Must be the service's authority.
    pub authority: Address,
}

/// The records and principal taking part in replacing a key's scopes.
pub struct UpdateScopes {
    pub service_address: Address,
    pub service: Service,
    pub api_key: ApiKey,
    /// Must be the service's authority.
    pub authority: Address,
}

/// The records and principal taking part in setting a key's expiration.
pub struct ExtendExpiration {
    pub service_address: Address,
    pub service: Service,
    pub api_key: ApiKey,
    /// Must be the service's authority.
    pub authority: Address,
}

/// The first failing check of a key that is to be used at `now`.
pub open spec fn usability_verdict(key: ApiKey, now: int) -> Result<(), ErrorCode> {
    if !key.is_active {
        Err(ErrorCode::KeyInactive)
    } else if key.expired_at(now) {
        Err(ErrorCode::KeyExpired)
    } else {
        Ok(())
    }
}

/// The first failing check that guards an operation on a key: membership, then role.
pub open spec fn access_verdict(
    service_address: Address,
    service: Service,
    key: ApiKey,
    principal: Address,
    role: Role,
) -> Result<(), ErrorCode> {
    if !same(key.service, service_address) {
        Err(ErrorCode::ServiceMismatch)
    } else if !holds_role(service, key, principal, role) {
        Err(ErrorCode::Unauthorized)
    } else {
        Ok(())
    }
}

/// The first failing check of a key creation.
pub open spec fn create_verdict(
    key_name: Seq<char>,
    scopes: Seq<String>,
    expires_at: Option<i64>,
    now: int,
) -> Result<(), ErrorCode> {
    if name_verdict(key_name) is Err {
        name_verdict(key_name)
    } else if scopes_verdict(scopes) is Err {
        scopes_verdict(scopes)
    } else if expires_at matches Some(e) && e <= now {
        Err(ErrorCode::ExpirationInPast)
    } else {
        Ok(())
    }
}

/// The service after one key was created.
pub open spec fn with_key_created(service: Service) -> Service {
    Service {
        total_keys: (service.total_keys + 1) as u64,
        active_keys: (service.active_keys + 1) as u64,
        ..service
    }
}

/// The service after one key was revoked: one fewer active key, never below zero.
pub open spec fn with_key_revoked(service: Service) -> Service {
    Service {
        active_keys: if service.active_keys > 0 {
            (service.active_keys - 1) as u64
        } else {
            0
        },
        ..service
    }
}

/// The service after one key was reactivated.
pub open spec fn with_key_reactivated(service: Service) -> Service {
    Service { active_keys: (service.active_keys + 1) as u64, ..service }
}

/// A key with its active flag set to `active`.
pub open spec fn with_active(key: ApiKey, active: bool) -> ApiKey {
    ApiKey { is_active: active, ..key }
}

/// A lifetime counter after one more request, clamped at the maximum.
pub open spec fn saturating_inc(n: u64) -> u64 {
    if n == u64::MAX {
        n
    } else {
        (n + 1) as u64
    }
}

/// The key after a request was counted at `now`.
pub open spec fn with_request_counted(key: ApiKey, now: int) -> ApiKey {
    let rolled = rolled_over(now, key.last_request_day as int, key.requests_today as int);
    ApiKey {
        last_request_day: rolled.0 as i64,
        requests_today: (rolled.1 + 1) as u64,
        total_requests: saturating_inc(key.total_requests),
        ..key
    }
}

/// The key that creation issues.
pub open spec fn issued_key(
    ctx: CreateApiKey,
    key_name: String,
    scopes: Vec<String>,
    rate_limit: Option<u64>,
    expires_at: Option<i64>,
    now: i64,
) -> ApiKey {
    ApiKey {
        service: ctx.service_address,
        owner: ctx.owner,
        key_index: ctx.service.total_keys,
        name: key_name,
        scopes: scopes,
        rate_limit: match rate_limit {
            Some(l) => l,
            None => ctx.service.default_rate_limit,
        },
        requests_today: 0,
        total_requests: 0,
        last_request_day: 0,
        created_at: now,
        expires_at: expires_at,
        is_active: true,
    }
}

/// The outcome of counting a request at `now`.
pub open spec fn record_request_verdict(ctx: RecordRequest, now: int) -> Result<(), ErrorCode> {
    let key = ctx.api_key;
    if access_verdict(ctx.service_address, ctx.service, key, ctx.authority, Role::Authority) is Err {
        access_verdict(ctx.service_address, ctx.service, key, ctx.authority, Role::Authority)
    } else if usability_verdict(key, now) is Err {
        usability_verdict(key, now)
    } else if !admits(
        now,
        key.last_request_day as int,
        key.requests_today as int,
        key.rate_limit as int,
    ) {
        Err(ErrorCode::RateLimitExceeded)
    } else {
        Ok(())
    }
}

/// The outcome of a scope check at `now`.
pub open spec fn validate_scope_verdict(ctx: ValidateScope, required: Seq<char>, now: int) -> Result<
    (),
    ErrorCode,
> {
    if !same(ctx.api_key.service, ctx.service_address) {
        Err(ErrorCode::ServiceMismatch)
    } else if usability_verdict(ctx.api_key, now) is Err {
        usability_verdict(ctx.api_key, now)
    } else if !ctx.api_key.grants(required) {
        Err(ErrorCode::InsufficientPermissions)
    } else {
        Ok(())
    }
}

/// The outcome of a revocation.
pub open spec fn revoke_verdict(ctx: RevokeKey) -> Result<(), ErrorCode> {
    let access = access_verdict(
        ctx.service_address,
        ctx.service,
        ctx.api_key,
        ctx.signer,
        Role::OwnerOrAuthority,
    );
    if access is Err {
        access
    } else if !ctx.api_key.is_active {
        Err(ErrorCode::KeyAlreadyRevoked)
    } else {
        Ok(())
    }
}

/// The outcome of a reactivation at `now`.
pub open spec fn reactivate_verdict(ctx: ReactivateKey, now: int) -> Result<(), ErrorCode> {
    let access = access_verdict(
        ctx.service_address,
        ctx.service,
        ctx.api_key,
        ctx.signer,
        Role::OwnerOrAuthority,
    );
    if access is Err {
        access
    } else if ctx.api_key.is_active {
        Err(ErrorCode::KeyAlreadyActive)
    } else if ctx.api_key.expired_at(now) {
        Err(ErrorCode::KeyExpired)
    } else {
        Ok(())
    }
}

/// Checks that a key may be used at `now`: active, then not expired.
pub fn check_usable(key: &ApiKey, now: i64) -> (r: Result<(), ErrorCode>)
    ensures
        r == usability_verdict(*key, now as int),
{
    if !key.is_active {
        return Err(ErrorCode::KeyInactive);
    }
    if let Some(exp) = key.expires_at {
        if now >= exp {
            return Err(ErrorCode::KeyExpired);
        }
    }
    Ok(())
}

/// Checks membership of the key in the service, then the principal's role.
pub fn check_access(
    service_address: &Address,
    service: &Service,
    key: &ApiKey,
    principal: &Address,
    role: Role,
) -> (r: Result<(), ErrorCode>)
    ensures
        r == access_verdict(*service_address, *service, *key, *principal, role),
{
    match check_membership(service_address, key) {
        Err(e) => Err(e),
        Ok(()) => authorize(service, key, principal, role),
    }
}

/// Whether a scope list grants `required`, verbatim or through the wildcard.
pub fn has_scope(scopes: &Vec<String>, required: &String) -> (r: bool)
    ensures
        r == exists|i: int|
            0 <= i < scopes@.len() && (#[trigger] scopes@[i]@ == required@ || scopes@[i]@
                == wildcard()),
{
    let mut i: usize = 0;
    while i < scopes.len()
        invariant
            0 <= i <= scopes@.len(),
            forall|j: int|
                0 <= j < i ==> !(#[trigger] scopes@[j]@ == required@ || scopes@[j]@
                    == wildcard()),
        decreases scopes@.len() - i,
    {
        let s = &scopes[i];
        if *s == *required || is_wildcard(s) {
            return true;
        }
        i = i + 1;
    }
    false
}

/// Whether a scope is the literal wildcard `"*"`.
pub fn is_wildcard(s: &String) -> (r: bool)
    ensures
        r == (s@ == wildcard()),
{
    let t = s.as_str();
    if t.unicode_len() != 1 {
        return false;
    }
    let c = t.get_char(0);
    if c == '*' {
        assert(s@ =~= wildcard());
        true
    } else {
        false
    }
}

/// Creates the record of a new service administered by `ctx.authority`, with no keys yet.
pub fn initialize_service(ctx: &InitializeService, name: String, default_rate_limit: u64) -> (r:
    Result<Service, ErrorCode>)
    ensures
        r is Err ==> r == Err::<Service, ErrorCode>(ErrorCode::NameTooLong),
        r is Ok <==> name_verdict(name@) is Ok,
        r matches Ok(service) ==> {
            &&& service.authority == ctx.authority
            &&& service.name == name
            &&& service.default_rate_limit == default_rate_limit
            &&& service.total_keys == 0
            &&& service.active_keys == 0
            &&& service.wf()
        },
{
    match check_name(&name) {
        Err(e) => Err(e),
        Ok(()) => Ok(
            Service {
                authority: ctx.authority,
                name,
                default_rate_limit,
                total_keys: 0,
                active_keys: 0,
            },
        ),
    }
}

/// Issues a new key to `ctx.owner` under the service, with sequence number
/// `total_keys`, and counts it in the service's totals.
pub fn create_api_key(
    ctx: &mut CreateApiKey,
    key_name: String,
    scopes: Vec<String>,
    rate_limit: Option<u64>,
    expires_at: Option<i64>,
    now: i64,
) -> (r: Result<ApiKey, ErrorCode>)
    requires
        old(ctx).service.total_keys < u64::MAX,
        old(ctx).service.active_keys < u64::MAX,
    ensures
        match r {
            Ok(key) => {
                &&& create_verdict(key_name@, scopes@, expires_at, now as int) is Ok
                &&& key == issued_key(*old(ctx), key_name, scopes, rate_limit, expires_at, now)
                &&& key.wf()
                &&& *final(ctx) == (CreateApiKey {
                    service: with_key_created(old(ctx).service),
                    ..*old(ctx)
                })
            },
            Err(e) => {
                &&& create_verdict(key_name@, scopes@, expires_at, now as int) == Err::<
                    (),
                    ErrorCode,
                >(e)
                &&& *final(ctx) == *old(ctx)
            },
        },
        old(ctx).service.wf() ==> final(ctx).service.wf(),
{
    if let Err(e) = check_name(&key_name) {
        return Err(e);
    }
    if let Err(e) = check_scopes(&scopes) {
        return Err(e);
    }
    if let Some(exp) = expires_at {
        if exp <= now {
            return Err(ErrorCode::ExpirationInPast);
        }
    }
    let limit = match rate_limit {
        Some(l) => l,
        None => ctx.service.default_rate_limit,
    };
    let key = ApiKey {
        service: ctx.service_address,
        owner: ctx.owner,
        key_index: ctx.service.total_keys,
        name: key_name,
        scopes,
        rate_limit: limit,
        requests_today: 0,
        total_requests: 0,
        last_request_day: 0,
        created_at: now,
        expires_at,
        is_active: true,
    };
    ctx.service.total_keys = ctx.service.total_keys + 1;
    ctx.service.active_keys = ctx.service.active_keys + 1;
    Ok(key)
}

/// Counts one request on the key at `now`, as attested by the service's authority:
/// rolls the day bucket over, then admits the request only while `requests_today`
/// is below the key's rate limit.
pub fn record_request(ctx: &mut RecordRequest, now: i64) -> (r: Result<(), ErrorCode>)
    ensures
        r == record_request_verdict(*old(ctx), now as int),
        r is Ok ==> *final(ctx) == (RecordRequest {
            api_key: with_request_counted(old(ctx).api_key, now as int),
            ..*old(ctx)
        }),
        r is Err ==> *final(ctx) == *old(ctx),
        final(ctx).api_key.last_request_day >= old(ctx).api_key.last_request_day,
{
    if let Err(e) = check_access(
        &ctx.service_address,
        &ctx.service,
        &ctx.api_key,
        &ctx.authority,
        Role::Authority,
    ) {
        return Err(e);
    }
    if let Err(e) = check_usable(&ctx.api_key, now) {
        return Err(e);
    }
    match admit_request(now, ctx.api_key.last_request_day, ctx.api_key.requests_today, ctx.api_key.rate_limit) {
        Err(e) => Err(e),
        Ok((day, count)) => {
            ctx.api_key.last_request_day = day;
            ctx.api_key.requests_today = count;
            ctx.api_key.total_requests = ctx.api_key.total_requests.saturating_add(1);
            Ok(())
        },
    }
}

/// Checks that the key is usable at `now` and grants `required_scope`.
pub fn validate_scope(ctx: &ValidateScope, required_scope: String, now: i64) -> (r: Result<
    (),
    ErrorCode,
>)
    ensures
        r == validate_scope_verdict(*ctx, required_scope@, now as int),
{
    if let Err(e) = check_membership(&ctx.service_address, &ctx.api_key) {
        return Err(e);
    }
    if let Err(e) = check_usable(&ctx.api_key, now) {
        return Err(e);
    }
    if has_scope(&ctx.api_key.scopes, &required_scope) {
        Ok(())
    } else {
        Err(ErrorCode::InsufficientPermissions)
    }
}

/// Revokes an active key, at the request of its owner or the service's authority.
pub fn revoke_key(ctx: &mut RevokeKey) -> (r: Result<(), ErrorCode>)
    ensures
        r == revoke_verdict(*old(ctx)),
        r is Ok ==> *final(ctx) == (RevokeKey {
            service: with_key_revoked(old(ctx).service),
            api_key: with_active(old(ctx).api_key, false),
            ..*old(ctx)
        }),
        r is Err ==> *final(ctx) == *old(ctx),
{
    if let Err(e) = check_access(
        &ctx.service_address,
        &ctx.service,
        &ctx.api_key,
        &ctx.signer,
        Role::OwnerOrAuthority,
    ) {
        return Err(e);
    }
    if !ctx.api_key.is_active {
        return Err(ErrorCode::KeyAlreadyRevoked);
    }
    ctx.api_key.is_active = false;
    ctx.service.active_keys = ctx.service.active_keys.saturating_sub(1);
    Ok(())
}

/// Reactivates a revoked key that has not expired at `now`, at the request of its
/// owner or the service's authority.
pub fn reactivate_key(ctx: &mut ReactivateKey, now: i64) -> (r: Result<(), ErrorCode>)
    requires
        old(ctx).service.active_keys < u64::MAX,
    ensures
        r == reactivate_verdict(*old(ctx), now as int),
        r is Ok ==> *final(ctx) == (ReactivateKey {
            service: with_key_reactivated(old(ctx).service),
            api_key: with_active(old(ctx).api_key, true),
            ..*old(ctx)
        }),
        r is Err ==> *final(ctx) == *old(ctx),
{
    if let Err(e) = check_access(
        &ctx.service_address,
        &ctx.service,
        &ctx.api_key,
        &ctx.signer,
        Role::OwnerOrAuthority,
    ) {
        return Err(e);
    }
    if ctx.api_key.is_active {
        return Err(ErrorCode::KeyAlreadyActive);
    }
    if let Some(exp) = ctx.api_key.expires_at {
        if now >= exp {
            return Err(ErrorCode::KeyExpired);
        }
    }
    ctx.api_key.is_active = true;
    ctx.service.active_keys = ctx.service.active_keys + 1;
    Ok(())
}

/// Overwrites the key's rate limit; `requests_today` is left as it is.
pub fn update_rate_limit(ctx: &mut UpdateRateLimit, new_limit: u64) -> (r: Result<(), ErrorCode>)
    ensures
        r == access_verdict(
            old(ctx).service_address,
            old(ctx).service,
            old(ctx).api_key,
            old(ctx).authority,
            Role::Authority,
        ),
        r is Ok ==> *final(ctx) == (UpdateRateLimit {
            api_key: ApiKey { rate_limit: new_limit, ..old(ctx).api_key },
            ..*old(ctx)
        }),
        r is Err ==> *final(ctx) == *old(ctx),
{
    if let Err(e) = check_access(
        &ctx.service_address,
        &ctx.service,
        &ctx.api_key,
        &ctx.authority,
        Role::Authority,
    ) {
        return Err(e);
    }
    ctx.api_key.rate_limit = new_limit;
    Ok(())
}

/// Replaces the key's scopes by `new_scopes`, after the same checks as at creation.
pub fn update_scopes(ctx: &mut UpdateScopes, new_scopes: Vec<String>) -> (r: Result<(), ErrorCode>)
    ensures
        r == (if access_verdict(
            old(ctx).service_address,
            old(ctx).service,
            old(ctx).api_key,
            old(ctx).authority,
            Role::Authority,
        ) is Err {
            access_verdict(
                old(ctx).service_address,
                old(ctx).service,
                old(ctx).api_key,
                old(ctx).authority,
                Role::Authority,
            )
        } else {
            scopes_verdict(new_scopes@)
        }),
        r is Ok ==> *final(ctx) == (UpdateScopes {
            api_key: ApiKey { scopes: new_scopes, ..old(ctx).api_key },
            ..*old(ctx)
        }),
        r is Err ==> *final(ctx) == *old(ctx),
        old(ctx).api_key.wf() ==> final(ctx).api_key.wf(),
{
    if let Err(e) = check_access(
        &ctx.service_address,
        &ctx.service,
        &ctx.api_key,
        &ctx.authority,
        Role::Authority,
    ) {
        return Err(e);
    }
    if let Err(e) = check_scopes(&new_scopes) {
        return Err(e);
    }
    ctx.api_key.scopes = new_scopes;
    Ok(())
}

/// Sets the key's expiration to `new_expires_at`, which must lie after `now`; it may
/// lengthen or shorten the key's life.
pub fn extend_expiration(ctx: &mut ExtendExpiration, new_expires_at: i64, now: i64) -> (r: Result<
    (),
    ErrorCode,
>)
    ensures
        r == (if access_verdict(
            old(ctx).service_address,
            old(ctx).service,
            old(ctx).api_key,
            old(ctx).authority,
            Role::Authority,
        ) is Err {
            access_verdict(
                old(ctx).service_address,
                old(ctx).service,
                old(ctx).api_key,
                old(ctx).authority,
                Role::Authority,
            )
        } else if new_expires_at <= now {
            Err(ErrorCode::ExpirationInPast)
        } else {
            Ok(())
        }),
        r is Ok ==> *final(ctx) == (ExtendExpiration {
            api_key: ApiKey { expires_at: Some(new_expires_at), ..old(ctx).api_key },
            ..*old(ctx)
        }),
        r is Err ==> *final(ctx) == *old(ctx),
{
    if let Err(e) = check_access(
        &ctx.service_address,
        &ctx.service,
        &ctx.api_key,
        &ctx.authority,
        Role::Authority,
    ) {
        return Err(e);
    }
    if new_expires_at <= now {
        return Err(ErrorCode::ExpirationInPast);
    }
    ctx.api_key.expires_at = Some(new_expires_at);
    Ok(())
}

} // verus!
