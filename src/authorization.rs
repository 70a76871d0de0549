use vstd::prelude::*;

use crate::accounts::{same, ApiKey, Service};
use crate::address::Address;
use crate::error::ErrorCode;

verus! {

/// Who may perform an operation on a key.
#[derive(Clone, Copy, Debug, PartialEq, Eq, Structural)]
pub enum Role {
    /// Only the service's authority.
    Authority,
    /// The key's owner or the service's authority.
    OwnerOrAuthority,
}

/// Whether `principal` holds `role` over `key` of `service`.
pub open spec fn holds_role(service: Service, key: ApiKey, principal: Address, role: Role) -> bool {
    match role {
        Role::Authority => same(principal, service.authority),
        Role::OwnerOrAuthority => same(principal, key.owner) || same(principal, service.authority),
    }
}

/// Whether `principal` is the key's owner or the service's authority.
pub fn is_owner_or_authority(service: &Service, key: &ApiKey, principal: &Address) -> (r: bool)
    ensures
        r == holds_role(*service, *key, *principal, Role::OwnerOrAuthority),
{
    principal.same_as(&key.owner) || principal.same_as(&service.authority)
}

/// Checks that `principal` holds `role`; `Unauthorized` otherwise.
pub fn authorize(service: &Service, key: &ApiKey, principal: &Address, role: Role) -> (r: Result<
    (),
    ErrorCode,
>)
    ensures
        r == (if holds_role(*service, *key, *principal, role) {
            Ok(())
        } else {
            Err(ErrorCode::Unauthorized)
        }),
{
    let ok = match role {
        Role::Authority => principal.same_as(&service.authority),
        Role::OwnerOrAuthority => is_owner_or_authority(service, key, principal),
    };
    if ok {
        Ok(())
    } else {
        Err(ErrorCode::Unauthorized)
    }
}

/// Checks that the key belongs to the service at `service_address`; `ServiceMismatch` otherwise.
pub fn check_membership(service_address: &Address, key: &ApiKey) -> (r: Result<(), ErrorCode>)
    ensures
        r == (if same(key.service, *service_address) {
            Ok(())
        } else {
            Err(ErrorCode::ServiceMismatch)
        }),
{
    if key.service.same_as(service_address) {
        Ok(())
    } else {
        Err(ErrorCode::ServiceMismatch)
    }
}

} // verus!
