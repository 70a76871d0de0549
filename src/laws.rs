use vstd::prelude::*;

use crate::accounts::{same, ApiKey, Service};
use crate::address::Address;
use crate::authorization::Role;
use crate::error::ErrorCode;
use crate::instructions::{
    access_verdict, create_verdict, issued_key, reactivate_verdict, record_request_verdict,
    revoke_verdict, usability_verdict, with_active, with_key_created, with_key_reactivated,
    with_key_revoked, with_request_counted, CreateApiKey, ReactivateKey, RecordRequest, RevokeKey,
};
use crate::usage::{day_number, rolled_over};

verus! {

/// A counted request never pushes the day's count past the rate limit: it was admitted
/// only with the rolled-over count below the limit, so the new count is at most the limit.
/// A request on which the rolled-over count is at the limit or above is refused.
pub proof fn lemma_admission_bound(ctx: RecordRequest, now: int)
    ensures
        record_request_verdict(ctx, now) is Ok ==> {
            let key = ctx.api_key;
            &&& rolled_over(now, key.last_request_day as int, key.requests_today as int).1
                < key.rate_limit
            &&& with_request_counted(key, now).requests_today <= key.rate_limit
        },
        ({
            let key = ctx.api_key;
            &&& access_verdict(ctx.service_address, ctx.service, key, ctx.authority, Role::Authority) is Ok
            &&& usability_verdict(key, now) is Ok
            &&& rolled_over(now, key.last_request_day as int, key.requests_today as int).1
                >= key.rate_limit
        }) ==> record_request_verdict(ctx, now) == Err::<(), ErrorCode>(
            ErrorCode::RateLimitExceeded,
        ),
{
}

/// After a counted request the day's count is strictly below the rate limit, except after
/// the request that uses up the last allowance of the day.
pub proof fn lemma_count_below_limit_after_request(ctx: RecordRequest, now: int)
    requires
        record_request_verdict(ctx, now) is Ok,
        rolled_over(
            now,
            ctx.api_key.last_request_day as int,
            ctx.api_key.requests_today as int,
        ).1 + 1 < ctx.api_key.rate_limit,
    ensures
        with_request_counted(ctx.api_key, now).requests_today < ctx.api_key.rate_limit,
{
}

/// The day bucket of any `i64` time fits in an `i64`.
pub proof fn lemma_day_number_fits(now: i64)
    ensures
        i64::MIN <= day_number(now as int) <= i64::MAX,
{
    let n = now as int;
    assert(i64::MIN <= n / 86400 <= i64::MAX) by (nonlinear_arith)
        requires
            i64::MIN <= n <= i64::MAX,
    {
    }
}

/// The day rolls over at most once per day bucket: after a counted request at `now`, a second
/// request at any time `later` of the same day finds day and count as the first one left
/// them. The recorded day never moves backwards.
pub proof fn lemma_rollover_once_per_day(ctx: RecordRequest, now: i64, later: i64)
    requires
        record_request_verdict(ctx, now as int) is Ok,
        day_number(later as int) == day_number(now as int),
    ensures
        ({
            let after = with_request_counted(ctx.api_key, now as int);
            &&& after.last_request_day >= ctx.api_key.last_request_day
            &&& after.last_request_day >= day_number(now as int)
            &&& rolled_over(
                later as int,
                after.last_request_day as int,
                after.requests_today as int,
            ) == (after.last_request_day as int, after.requests_today as int)
        }),
{
    lemma_day_number_fits(now);
}

/// Revoking a key and then reactivating it before it expires restores the key and the
/// service's count of active keys, given a service that counted the key as active.
pub proof fn lemma_revoke_then_reactivate(ctx: RevokeKey, now: int)
    requires
        revoke_verdict(ctx) is Ok,
        ctx.service.active_keys > 0,
        !ctx.api_key.expired_at(now),
    ensures
        ({
            let revoked = ReactivateKey {
                service_address: ctx.service_address,
                service: with_key_revoked(ctx.service),
                api_key: with_active(ctx.api_key, false),
                signer: ctx.signer,
            };
            &&& reactivate_verdict(revoked, now) is Ok
            &&& with_key_reactivated(revoked.service) == ctx.service
            &&& with_active(revoked.api_key, true) == ctx.api_key
            &&& with_active(revoked.api_key, true).is_active
        }),
{
    let k = ctx.api_key;
    assert(with_active(with_active(k, false), true) == k);
    let s = ctx.service;
    assert(with_key_reactivated(with_key_revoked(s)) == s);
}

/// How many of the keys are active.
pub open spec fn count_active(keys: Seq<ApiKey>) -> nat
    decreases keys.len(),
{
    if keys.len() == 0 {
        0
    } else {
        count_active(keys.drop_last()) + if keys.last().is_active {
            1nat
        } else {
            0nat
        }
    }
}

/// A service together with every key it ever issued, in order of creation: the totals match
/// the keys, and each key carries its position as sequence number.
pub open spec fn registry_valid(service_address: Address, service: Service, keys: Seq<ApiKey>) -> bool {
    &&& service.total_keys == keys.len()
    &&& service.active_keys == count_active(keys)
    &&& forall|i: int|
        0 <= i < keys.len() ==> (#[trigger] keys[i]).key_index == i && same(
            keys[i].service,
            service_address,
        )
}

proof fn lemma_count_active_bounded(keys: Seq<ApiKey>)
    ensures
        count_active(keys) <= keys.len(),
    decreases keys.len(),
{
    if keys.len() > 0 {
        lemma_count_active_bounded(keys.drop_last());
    }
}

proof fn lemma_count_active_update(keys: Seq<ApiKey>, i: int, k: ApiKey)
    requires
        0 <= i < keys.len(),
    ensures
        count_active(keys.update(i, k)) + (if keys[i].is_active {
            1int
        } else {
            0int
        }) == count_active(keys) + (if k.is_active {
            1int
        } else {
            0int
        }),
    decreases keys.len(),
{
    let u = keys.update(i, k);
    if i == keys.len() - 1 {
        assert(u.drop_last() =~= keys.drop_last());
    } else {
        lemma_count_active_update(keys.drop_last(), i, k);
        assert(u.drop_last() =~= keys.drop_last().update(i, k));
    }
}

/// In a valid registry the active keys never outnumber the keys, and there is room to count
/// one more active key whenever some key is inactive.
pub proof fn lemma_registry_bounds(service_address: Address, service: Service, keys: Seq<ApiKey>)
    requires
        registry_valid(service_address, service, keys),
    ensures
        0 <= service.active_keys <= service.total_keys,
        (exists|i: int| 0 <= i < keys.len() && !(#[trigger] keys[i]).is_active)
            ==> service.active_keys < service.total_keys,
{
    lemma_count_active_bounded(keys);
    if exists|i: int| 0 <= i < keys.len() && !(#[trigger] keys[i]).is_active {
        let i = choose|i: int| 0 <= i < keys.len() && !(#[trigger] keys[i]).is_active;
        let k = with_active(keys[i], true);
        lemma_count_active_update(keys, i, k);
        lemma_count_active_bounded(keys.update(i, k));
    }
}

/// Creating a key keeps the registry valid, with the new key appended.
pub proof fn lemma_create_keeps_registry_valid(
    ctx: CreateApiKey,
    keys: Seq<ApiKey>,
    key_name: String,
    scopes: Vec<String>,
    rate_limit: Option<u64>,
    expires_at: Option<i64>,
    now: i64,
)
    requires
        registry_valid(ctx.service_address, ctx.service, keys),
        ctx.service.total_keys < u64::MAX,
        create_verdict(key_name@, scopes@, expires_at, now as int) is Ok,
    ensures
        ctx.service.active_keys < u64::MAX,
        ({
            let service = with_key_created(ctx.service);
            let all = keys.push(issued_key(ctx, key_name, scopes, rate_limit, expires_at, now));
            &&& registry_valid(ctx.service_address, service, all)
            &&& service.active_keys <= service.total_keys
        }),
{
    let k = issued_key(ctx, key_name, scopes, rate_limit, expires_at, now);
    let all = keys.push(k);
    assert(all.drop_last() =~= keys);
    lemma_count_active_bounded(keys);
    lemma_registry_bounds(ctx.service_address, with_key_created(ctx.service), all);
}

/// Revoking key `i` keeps the registry valid, with that key marked inactive.
pub proof fn lemma_revoke_keeps_registry_valid(ctx: RevokeKey, keys: Seq<ApiKey>, i: int)
    requires
        registry_valid(ctx.service_address, ctx.service, keys),
        0 <= i < keys.len(),
        ctx.api_key == keys[i],
        revoke_verdict(ctx) is Ok,
    ensures
        ({
            let service = with_key_revoked(ctx.service);
            let all = keys.update(i, with_active(keys[i], false));
            &&& registry_valid(ctx.service_address, service, all)
            &&& service.active_keys <= service.total_keys
        }),
{
    let all = keys.update(i, with_active(keys[i], false));
    lemma_count_active_update(keys, i, with_active(keys[i], false));
    lemma_registry_bounds(ctx.service_address, with_key_revoked(ctx.service), all);
}

/// Reactivating key `i` keeps the registry valid, with that key marked active; the count of
/// active keys has room for it.
pub proof fn lemma_reactivate_keeps_registry_valid(
    ctx: ReactivateKey,
    keys: Seq<ApiKey>,
    i: int,
    now: int,
)
    requires
        registry_valid(ctx.service_address, ctx.service, keys),
        0 <= i < keys.len(),
        ctx.api_key == keys[i],
        reactivate_verdict(ctx, now) is Ok,
    ensures
        ctx.service.active_keys < u64::MAX,
        ({
            let service = with_key_reactivated(ctx.service);
            let all = keys.update(i, with_active(keys[i], true));
            &&& registry_valid(ctx.service_address, service, all)
            &&& service.active_keys <= service.total_keys
        }),
{
    lemma_registry_bounds(ctx.service_address, ctx.service, keys);
    let all = keys.update(i, with_active(keys[i], true));
    lemma_count_active_update(keys, i, with_active(keys[i], true));
    lemma_registry_bounds(ctx.service_address, with_key_reactivated(ctx.service), all);
}

/// An expired key is refused with `KeyExpired` whatever allowance it has left, once access
/// is granted and the key is active.
pub proof fn lemma_expired_key_refused(ctx: RecordRequest, now: int)
    requires
        access_verdict(ctx.service_address, ctx.service, ctx.api_key, ctx.authority, Role::Authority) is Ok,
        ctx.api_key.is_active,
        ctx.api_key.expired_at(now),
    ensures
        record_request_verdict(ctx, now) == Err::<(), ErrorCode>(ErrorCode::KeyExpired),
{
}

} // verus!
