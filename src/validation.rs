use vstd::prelude::*;

use crate::accounts::{byte_len, scopes_ok, MAX_NAME_LEN, MAX_SCOPES, SCOPE_LEN};
use crate::error::ErrorCode;

verus! {

/// The verdict on a proposed scope list: too many first, then any scope too long.
pub open spec fn scopes_verdict(scopes: Seq<String>) -> Result<(), ErrorCode> {
    if scopes.len() > MAX_SCOPES {
        Err(ErrorCode::TooManyScopes)
    } else if !scopes_ok(scopes) {
        Err(ErrorCode::ScopeTooLong)
    } else {
        Ok(())
    }
}

/// The verdict on a proposed service or key name.
pub open spec fn name_verdict(name: Seq<char>) -> Result<(), ErrorCode> {
    if byte_len(name) > MAX_NAME_LEN {
        Err(ErrorCode::NameTooLong)
    } else {
        Ok(())
    }
}

/// The length of a string in UTF-8 bytes.
pub fn byte_length(s: &String) -> (r: usize)
    ensures
        r == byte_len(s@),
{
    s.as_str().len()
}

/// Checks a name against the length bound.
pub fn check_name(name: &String) -> (r: Result<(), ErrorCode>)
    ensures
        r == name_verdict(name@),
{
    if byte_length(name) <= MAX_NAME_LEN {
        Ok(())
    } else {
        Err(ErrorCode::NameTooLong)
    }
}

/// Checks a scope list against the count bound and each scope against the length bound.
pub fn check_scopes(scopes: &Vec<String>) -> (r: Result<(), ErrorCode>)
    ensures
        r == scopes_verdict(scopes@),
{
    if scopes.len() > MAX_SCOPES {
        return Err(ErrorCode::TooManyScopes);
    }
    let mut i: usize = 0;
    while i < scopes.len()
        invariant
            0 <= i <= scopes@.len(),
            scopes@.len() <= MAX_SCOPES,
            forall|j: int| 0 <= j < i ==> byte_len(#[trigger] scopes@[j]@) <= SCOPE_LEN,
        decreases scopes@.len() - i,
    {
        if byte_length(&scopes[i]) > SCOPE_LEN {
            return Err(ErrorCode::ScopeTooLong);
        }
        i = i + 1;
    }
    Ok(())
}

} // verus!
