use apikey_manager::accounts::{ApiKey, Service};
use apikey_manager::address::Address;
use apikey_manager::authorization::{authorize, Role};
use apikey_manager::error::ErrorCode;
use apikey_manager::instructions::{
    create_api_key, extend_expiration, initialize_service, reactivate_key, record_request,
    revoke_key, update_rate_limit, update_scopes, validate_scope, CreateApiKey,
    ExtendExpiration, InitializeService, ReactivateKey, RecordRequest, RevokeKey,
    UpdateRateLimit, UpdateScopes, ValidateScope,
};
use apikey_manager::usage::{admit_request, day_of};
use apikey_manager::validation::{check_name, check_scopes};

const NOW: i64 = 1_700_000_000;

fn addr(b: u8) -> Address {
    Address::new([b; 32])
}

fn authority() -> Address {
    addr(1)
}

fn owner() -> Address {
    addr(2)
}

fn service_address() -> Address {
    addr(9)
}

fn strings(items: &[&str]) -> Vec<String> {
    items.iter().map(|s| s.to_string()).collect()
}

fn service(default_rate_limit: u64) -> Service {
    initialize_service(
        &InitializeService { authority: authority() },
        "weather".to_string(),
        default_rate_limit,
    )
    .unwrap()
}

fn new_key(
    svc: &mut Service,
    scopes: &[&str],
    rate_limit: Option<u64>,
    expires_at: Option<i64>,
    now: i64,
) -> Result<ApiKey, ErrorCode> {
    let mut ctx = CreateApiKey {
        service_address: service_address(),
        service: svc.clone(),
        owner: owner(),
    };
    let r = create_api_key(
        &mut ctx,
        "mobile".to_string(),
        strings(scopes),
        rate_limit,
        expires_at,
        now,
    );
    *svc = ctx.service;
    r
}

fn record_ctx(svc: &Service, key: ApiKey) -> RecordRequest {
    RecordRequest {
        service_address: service_address(),
        service: svc.clone(),
        api_key: key,
        authority: authority(),
    }
}

fn scope_ctx(svc: &Service, key: ApiKey) -> ValidateScope {
    ValidateScope { service_address: service_address(), service: svc.clone(), api_key: key }
}

fn revoke_ctx(svc: &Service, key: ApiKey, signer: Address) -> RevokeKey {
    RevokeKey { service_address: service_address(), service: svc.clone(), api_key: key, signer }
}

fn reactivate_ctx(svc: &Service, key: ApiKey, signer: Address) -> ReactivateKey {
    ReactivateKey { service_address: service_address(), service: svc.clone(), api_key: key, signer }
}

#[test]
fn initialize_sets_counters_to_zero() {
    let svc = service(100);
    assert!(svc.authority == authority());
    assert_eq!(svc.name, "weather");
    assert_eq!(svc.default_rate_limit, 100);
    assert_eq!(svc.total_keys, 0);
    assert_eq!(svc.active_keys, 0);
}

#[test]
fn initialize_rejects_long_name() {
    let r = initialize_service(&InitializeService { authority: authority() }, "x".repeat(33), 5);
    assert_eq!(r.unwrap_err(), ErrorCode::NameTooLong);
    let ok = initialize_service(&InitializeService { authority: authority() }, "x".repeat(32), 5);
    assert!(ok.is_ok());
}

#[test]
fn name_length_counts_bytes() {
    // 17 two-byte characters are 34 bytes.
    assert_eq!(check_name(&"é".repeat(17)), Err(ErrorCode::NameTooLong));
    assert_eq!(check_name(&"é".repeat(16)), Ok(()));
}

#[test]
fn create_uses_default_rate_limit_and_sequence() {
    let mut svc = service(5);
    let k0 = new_key(&mut svc, &["read"], None, None, NOW).unwrap();
    let k1 = new_key(&mut svc, &["read"], Some(42), Some(NOW + 10), NOW).unwrap();
    assert_eq!(k0.rate_limit, 5);
    assert_eq!(k1.rate_limit, 42);
    assert_eq!(k0.key_index, 0);
    assert_eq!(k1.key_index, 1);
    assert_eq!(k1.expires_at, Some(NOW + 10));
    assert!(k0.is_active);
    assert_eq!(k0.requests_today, 0);
    assert_eq!(k0.total_requests, 0);
    assert_eq!(k0.last_request_day, 0);
    assert_eq!(k0.created_at, NOW);
    assert!(k0.service == service_address());
    assert!(k0.owner == owner());
    assert_eq!(svc.total_keys, 2);
    assert_eq!(svc.active_keys, 2);
}

#[test]
fn create_validation_errors_leave_service_unchanged() {
    let mut svc = service(5);
    let nine: Vec<&str> = vec!["a"; 9];
    assert_eq!(new_key(&mut svc, &nine, None, None, NOW).unwrap_err(), ErrorCode::TooManyScopes);
    let long = "s".repeat(17);
    assert_eq!(
        new_key(&mut svc, &["read", long.as_str()], None, None, NOW).unwrap_err(),
        ErrorCode::ScopeTooLong
    );
    assert_eq!(
        new_key(&mut svc, &["read"], None, Some(NOW), NOW).unwrap_err(),
        ErrorCode::ExpirationInPast
    );
    let mut ctx = CreateApiKey { service_address: service_address(), service: svc.clone(), owner: owner() };
    let r = create_api_key(&mut ctx, "n".repeat(33), strings(&["read"]), None, None, NOW);
    assert_eq!(r.unwrap_err(), ErrorCode::NameTooLong);
    assert_eq!(ctx.service.total_keys, 0);
    assert_eq!(svc.total_keys, 0);
    assert_eq!(svc.active_keys, 0);
}

#[test]
fn check_scopes_reports_count_before_length() {
    let mut many = strings(&["a"; 9]);
    many[0] = "z".repeat(20);
    assert_eq!(check_scopes(&many), Err(ErrorCode::TooManyScopes));
    assert_eq!(check_scopes(&strings(&["a"; 8])), Ok(()));
    assert_eq!(check_scopes(&vec![]), Ok(()));
    assert_eq!(check_scopes(&vec!["q".repeat(16)]), Ok(()));
}

#[test]
fn five_requests_then_limit_then_next_day() {
    let mut svc = service(5);
    let key = new_key(&mut svc, &["read"], None, None, NOW).unwrap();
    assert_eq!(key.rate_limit, 5);
    let mut ctx = record_ctx(&svc, key);
    for _ in 0..5 {
        assert_eq!(record_request(&mut ctx, NOW), Ok(()));
    }
    assert_eq!(ctx.api_key.requests_today, 5);
    assert_eq!(ctx.api_key.total_requests, 5);
    assert_eq!(record_request(&mut ctx, NOW), Err(ErrorCode::RateLimitExceeded));
    assert_eq!(ctx.api_key.requests_today, 5);
    assert_eq!(ctx.api_key.total_requests, 5);
    assert_eq!(record_request(&mut ctx, NOW + 86400), Ok(()));
    assert_eq!(ctx.api_key.requests_today, 1);
    assert_eq!(ctx.api_key.total_requests, 6);
    assert_eq!(ctx.api_key.last_request_day, (NOW + 86400) / 86400);
}

#[test]
fn rollover_happens_once_per_day() {
    let mut svc = service(10);
    let key = new_key(&mut svc, &["read"], None, None, NOW).unwrap();
    let mut ctx = record_ctx(&svc, key);
    assert_eq!(record_request(&mut ctx, NOW), Ok(()));
    let day = ctx.api_key.last_request_day;
    assert_eq!(day, NOW / 86400);
    assert_eq!(record_request(&mut ctx, NOW + 1), Ok(()));
    assert_eq!(ctx.api_key.last_request_day, day);
    assert_eq!(ctx.api_key.requests_today, 2);
    // An earlier day does not move the recorded day backwards.
    assert_eq!(record_request(&mut ctx, NOW - 3 * 86400), Ok(()));
    assert_eq!(ctx.api_key.last_request_day, day);
    assert_eq!(ctx.api_key.requests_today, 3);
}

#[test]
fn skipped_days_collapse_into_one_reset() {
    assert_eq!(admit_request(10 * 86400, 2, 7, 8), Ok((10, 1)));
    assert_eq!(admit_request(2 * 86400 + 5, 2, 7, 8), Ok((2, 8)));
    assert_eq!(admit_request(2 * 86400 + 5, 2, 8, 8), Err(ErrorCode::RateLimitExceeded));
}

#[test]
fn zero_rate_limit_refuses_every_request() {
    let mut svc = service(0);
    let key = new_key(&mut svc, &["read"], None, None, NOW).unwrap();
    let mut ctx = record_ctx(&svc, key);
    assert_eq!(record_request(&mut ctx, NOW), Err(ErrorCode::RateLimitExceeded));
    assert_eq!(ctx.api_key.requests_today, 0);
    assert_eq!(ctx.api_key.last_request_day, 0);
}

#[test]
fn day_buckets_round_down_before_epoch() {
    assert_eq!(day_of(0), 0);
    assert_eq!(day_of(86399), 0);
    assert_eq!(day_of(86400), 1);
    assert_eq!(day_of(-1), -1);
    assert_eq!(day_of(-86400), -1);
    assert_eq!(day_of(-86401), -2);
    assert_eq!(day_of(i64::MIN), i64::MIN.div_euclid(86400));
    assert_eq!(day_of(i64::MAX), i64::MAX / 86400);
}

#[test]
fn negative_time_is_accepted() {
    let mut svc = service(3);
    let key = new_key(&mut svc, &["read"], None, None, -5).unwrap();
    let mut ctx = record_ctx(&svc, key);
    // Day -1 is not after the initial day 0: no rollover.
    assert_eq!(record_request(&mut ctx, -5), Ok(()));
    assert_eq!(ctx.api_key.last_request_day, 0);
    assert_eq!(ctx.api_key.requests_today, 1);
}

#[test]
fn total_requests_saturates() {
    let mut svc = service(3);
    let mut key = new_key(&mut svc, &["read"], None, None, NOW).unwrap();
    key.total_requests = u64::MAX;
    let mut ctx = record_ctx(&svc, key);
    assert_eq!(record_request(&mut ctx, NOW), Ok(()));
    assert_eq!(ctx.api_key.total_requests, u64::MAX);
    assert_eq!(ctx.api_key.requests_today, 1);
}

#[test]
fn record_request_checks_membership_authority_and_state() {
    let mut svc = service(3);
    let key = new_key(&mut svc, &["read"], None, None, NOW).unwrap();

    let mut ctx = record_ctx(&svc, key.clone());
    ctx.service_address = addr(77);
    assert_eq!(record_request(&mut ctx, NOW), Err(ErrorCode::ServiceMismatch));

    let mut ctx = record_ctx(&svc, key.clone());
    ctx.authority = owner();
    assert_eq!(record_request(&mut ctx, NOW), Err(ErrorCode::Unauthorized));
    assert_eq!(ctx.api_key.requests_today, 0);

    let mut inactive = key.clone();
    inactive.is_active = false;
    let mut ctx = record_ctx(&svc, inactive);
    assert_eq!(record_request(&mut ctx, NOW), Err(ErrorCode::KeyInactive));
}

#[test]
fn expiration_boundary_for_requests() {
    let mut svc = service(1);
    let key = new_key(&mut svc, &["read"], None, Some(NOW + 1000), NOW).unwrap();
    let mut ctx = record_ctx(&svc, key.clone());
    assert_eq!(record_request(&mut ctx, NOW + 999), Ok(()));
    // No allowance left, but expiration is checked first.
    assert_eq!(record_request(&mut ctx, NOW + 1001), Err(ErrorCode::KeyExpired));
    let mut fresh = record_ctx(&svc, key);
    assert_eq!(record_request(&mut fresh, NOW + 1001), Err(ErrorCode::KeyExpired));
    assert_eq!(record_request(&mut fresh, NOW + 1000), Err(ErrorCode::KeyExpired));
    assert_eq!(fresh.api_key.requests_today, 0);
}

#[test]
fn wildcard_and_exact_scopes() {
    let mut svc = service(5);
    let wide = new_key(&mut svc, &["read", "*"], None, None, NOW).unwrap();
    let narrow = new_key(&mut svc, &["read"], None, None, NOW).unwrap();
    assert_eq!(validate_scope(&scope_ctx(&svc, wide.clone()), "write".to_string(), NOW), Ok(()));
    assert_eq!(validate_scope(&scope_ctx(&svc, wide), "read".to_string(), NOW), Ok(()));
    assert_eq!(validate_scope(&scope_ctx(&svc, narrow.clone()), "read".to_string(), NOW), Ok(()));
    assert_eq!(
        validate_scope(&scope_ctx(&svc, narrow), "write".to_string(), NOW),
        Err(ErrorCode::InsufficientPermissions)
    );
}

#[test]
fn wildcard_is_exact_string_only() {
    let mut svc = service(5);
    let key = new_key(&mut svc, &["re*", "**", "* "], None, None, NOW).unwrap();
    assert_eq!(
        validate_scope(&scope_ctx(&svc, key.clone()), "read".to_string(), NOW),
        Err(ErrorCode::InsufficientPermissions)
    );
    assert_eq!(validate_scope(&scope_ctx(&svc, key), "**".to_string(), NOW), Ok(()));
    let none = new_key(&mut svc, &[], None, None, NOW).unwrap();
    assert_eq!(
        validate_scope(&scope_ctx(&svc, none), "".to_string(), NOW),
        Err(ErrorCode::InsufficientPermissions)
    );
}

#[test]
fn validate_scope_state_errors() {
    let mut svc = service(5);
    let key = new_key(&mut svc, &["*"], None, Some(NOW + 50), NOW).unwrap();
    assert_eq!(
        validate_scope(&scope_ctx(&svc, key.clone()), "x".to_string(), NOW + 50),
        Err(ErrorCode::KeyExpired)
    );
    let mut off = key.clone();
    off.is_active = false;
    assert_eq!(
        validate_scope(&scope_ctx(&svc, off), "x".to_string(), NOW),
        Err(ErrorCode::KeyInactive)
    );
    let mut ctx = scope_ctx(&svc, key);
    ctx.service_address = addr(3);
    assert_eq!(validate_scope(&ctx, "x".to_string(), NOW), Err(ErrorCode::ServiceMismatch));
}

#[test]
fn revoke_then_reactivate_restores_counts() {
    let mut svc = service(5);
    let key = new_key(&mut svc, &["read"], None, Some(NOW + 100), NOW).unwrap();
    let before = svc.active_keys;
    let mut r = revoke_ctx(&svc, key, owner());
    assert_eq!(revoke_key(&mut r), Ok(()));
    assert!(!r.api_key.is_active);
    assert_eq!(r.service.active_keys, before - 1);
    assert_eq!(revoke_key(&mut r), Err(ErrorCode::KeyAlreadyRevoked));
    assert_eq!(r.service.active_keys, before - 1);

    let mut a = reactivate_ctx(&r.service, r.api_key.clone(), authority());
    assert_eq!(reactivate_key(&mut a, NOW + 10), Ok(()));
    assert!(a.api_key.is_active);
    assert_eq!(a.service.active_keys, before);
    assert_eq!(reactivate_key(&mut a, NOW + 10), Err(ErrorCode::KeyAlreadyActive));
    assert_eq!(a.service.active_keys, before);
}

#[test]
fn reactivate_refuses_expired_key() {
    let mut svc = service(5);
    let key = new_key(&mut svc, &["read"], None, Some(NOW + 100), NOW).unwrap();
    let mut r = revoke_ctx(&svc, key, authority());
    assert_eq!(revoke_key(&mut r), Ok(()));
    let mut a = reactivate_ctx(&r.service, r.api_key.clone(), owner());
    assert_eq!(reactivate_key(&mut a, NOW + 100), Err(ErrorCode::KeyExpired));
    assert!(!a.api_key.is_active);
    assert_eq!(a.service.active_keys, 0);
}

#[test]
fn revoke_floors_active_keys_at_zero() {
    let mut svc = service(5);
    let key = new_key(&mut svc, &["read"], None, None, NOW).unwrap();
    svc.active_keys = 0;
    let mut r = revoke_ctx(&svc, key, owner());
    assert_eq!(revoke_key(&mut r), Ok(()));
    assert_eq!(r.service.active_keys, 0);
}

#[test]
fn revoke_and_reactivate_need_owner_or_authority() {
    let mut svc = service(5);
    let key = new_key(&mut svc, &["read"], None, None, NOW).unwrap();
    let mut r = revoke_ctx(&svc, key.clone(), addr(50));
    assert_eq!(revoke_key(&mut r), Err(ErrorCode::Unauthorized));
    assert!(r.api_key.is_active);
    let mut off = key;
    off.is_active = false;
    let mut a = reactivate_ctx(&svc, off.clone(), addr(50));
    assert_eq!(reactivate_key(&mut a, NOW), Err(ErrorCode::Unauthorized));
    let mut m = reactivate_ctx(&svc, off, owner());
    m.service_address = addr(51);
    assert_eq!(reactivate_key(&mut m, NOW), Err(ErrorCode::ServiceMismatch));
}

#[test]
fn active_keys_stay_within_total_over_a_sequence() {
    let mut svc = service(5);
    let mut keys = Vec::new();
    for _ in 0..3 {
        keys.push(new_key(&mut svc, &["read"], None, None, NOW).unwrap());
        assert!(svc.active_keys <= svc.total_keys);
    }
    for i in 0..3 {
        let mut r = revoke_ctx(&svc, keys[i].clone(), owner());
        assert_eq!(revoke_key(&mut r), Ok(()));
        svc = r.service;
        keys[i] = r.api_key;
        assert!(svc.active_keys <= svc.total_keys);
    }
    assert_eq!(svc.active_keys, 0);
    let mut a = reactivate_ctx(&svc, keys[1].clone(), owner());
    assert_eq!(reactivate_key(&mut a, NOW), Ok(()));
    svc = a.service;
    assert_eq!(svc.active_keys, 1);
    assert_eq!(svc.total_keys, 3);
}

#[test]
fn update_rate_limit_overwrites_without_reset() {
    let mut svc = service(5);
    let key = new_key(&mut svc, &["read"], None, None, NOW).unwrap();
    let mut rec = record_ctx(&svc, key);
    for _ in 0..3 {
        assert_eq!(record_request(&mut rec, NOW), Ok(()));
    }
    let mut u = UpdateRateLimit {
        service_address: service_address(),
        service: svc.clone(),
        api_key: rec.api_key.clone(),
        authority: authority(),
    };
    assert_eq!(update_rate_limit(&mut u, 1), Ok(()));
    assert_eq!(u.api_key.rate_limit, 1);
    assert_eq!(u.api_key.requests_today, 3);
    let mut rec = record_ctx(&svc, u.api_key.clone());
    assert_eq!(record_request(&mut rec, NOW), Err(ErrorCode::RateLimitExceeded));

    u.authority = owner();
    assert_eq!(update_rate_limit(&mut u, 9), Err(ErrorCode::Unauthorized));
    assert_eq!(u.api_key.rate_limit, 1);
}

#[test]
fn update_scopes_with_nine_entries_fails() {
    let mut svc = service(5);
    let key = new_key(&mut svc, &["read", "write"], None, None, NOW).unwrap();
    let mut u = UpdateScopes {
        service_address: service_address(),
        service: svc.clone(),
        api_key: key,
        authority: authority(),
    };
    let nine = strings(&["a", "b", "c", "d", "e", "f", "g", "h", "i"]);
    assert_eq!(update_scopes(&mut u, nine), Err(ErrorCode::TooManyScopes));
    assert_eq!(u.api_key.scopes, strings(&["read", "write"]));
    assert_eq!(update_scopes(&mut u, vec!["w".repeat(17)]), Err(ErrorCode::ScopeTooLong));
    assert_eq!(u.api_key.scopes, strings(&["read", "write"]));
    assert_eq!(update_scopes(&mut u, strings(&["admin"])), Ok(()));
    assert_eq!(u.api_key.scopes, strings(&["admin"]));
}

#[test]
fn extend_expiration_sets_future_times_only() {
    let mut svc = service(5);
    let key = new_key(&mut svc, &["read"], None, None, NOW).unwrap();
    let mut e = ExtendExpiration {
        service_address: service_address(),
        service: svc.clone(),
        api_key: key,
        authority: authority(),
    };
    assert_eq!(extend_expiration(&mut e, NOW, NOW), Err(ErrorCode::ExpirationInPast));
    assert_eq!(e.api_key.expires_at, None);
    assert_eq!(extend_expiration(&mut e, NOW + 500, NOW), Ok(()));
    assert_eq!(e.api_key.expires_at, Some(NOW + 500));
    // A shorter, still future expiration is accepted.
    assert_eq!(extend_expiration(&mut e, NOW + 10, NOW), Ok(()));
    assert_eq!(e.api_key.expires_at, Some(NOW + 10));
    e.service_address = addr(4);
    assert_eq!(extend_expiration(&mut e, NOW + 900, NOW), Err(ErrorCode::ServiceMismatch));
    assert_eq!(e.api_key.expires_at, Some(NOW + 10));
}

#[test]
fn authorize_roles() {
    let mut svc = service(5);
    let key = new_key(&mut svc, &["read"], None, None, NOW).unwrap();
    assert_eq!(authorize(&svc, &key, &authority(), Role::Authority), Ok(()));
    assert_eq!(authorize(&svc, &key, &owner(), Role::Authority), Err(ErrorCode::Unauthorized));
    assert_eq!(authorize(&svc, &key, &owner(), Role::OwnerOrAuthority), Ok(()));
    assert_eq!(authorize(&svc, &key, &authority(), Role::OwnerOrAuthority), Ok(()));
    assert_eq!(
        authorize(&svc, &key, &addr(8), Role::OwnerOrAuthority),
        Err(ErrorCode::Unauthorized)
    );
}

#[test]
fn address_equality_compares_every_byte() {
    let mut b = [5u8; 32];
    let a = Address::new(b);
    b[31] = 6;
    assert!(!a.same_as(&Address::new(b)));
    assert!(a.same_as(&Address::new([5u8; 32])));
    assert!(a != Address::new(b));
}
