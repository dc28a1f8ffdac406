//! Who may pass the HTTP middleware.
use vstd::prelude::*;

verus! {

/// What the middleware does with a request.
#[derive(Debug, Clone, Copy, PartialEq, Eq, Structural)]
pub enum AccessDecision {
    /// Pass the request on.
    Allow,
    /// Answer 401.
    Unauthorized,
    /// Answer 403.
    Forbidden,
}

/// Authentication: a request needs an `access_token` cookie whose token the
/// identity provider accepts (`identified`, asked only where there is a
/// token).
pub fn authentication_decision(has_token: bool, identified: bool) -> (d: AccessDecision)
    ensures
        d == (if has_token && identified { AccessDecision::Allow } else { AccessDecision::Unauthorized }),
{
    if has_token && identified {
        AccessDecision::Allow
    } else {
        AccessDecision::Unauthorized
    }
}

/// The admin area: only for administrators; an administrator check that
/// failed (`None`) counts as no.
pub fn permission_decision(is_admin: Option<bool>) -> (d: AccessDecision)
    ensures
        d == (if is_admin == Some(true) { AccessDecision::Allow } else { AccessDecision::Forbidden }),
{
    match is_admin {
        Some(true) => AccessDecision::Allow,
        _ => AccessDecision::Forbidden,
    }
}

/// A member's own data: for the member and for administrators. Without an
/// identified requester the answer is 401; `is_admin` (where the check
/// failed, no) is only consulted for an identified requester.
pub open spec fn member_access_spec(requester: Option<u128>, target: u128, is_admin: bool) -> AccessDecision {
    match requester {
        None => AccessDecision::Unauthorized,
        Some(id) => if is_admin || id == target { AccessDecision::Allow } else { AccessDecision::Forbidden },
    }
}

pub fn member_access_decision(requester: Option<u128>, target: u128, is_admin: bool) -> (d: AccessDecision)
    ensures
        d == member_access_spec(requester, target, is_admin),
{
    match requester {
        None => AccessDecision::Unauthorized,
        Some(id) => if is_admin || id == target { AccessDecision::Allow } else { AccessDecision::Forbidden },
    }
}

/// Members always reach their own data; a requester that is neither the
/// member nor an administrator never does.
pub proof fn law_member_access(requester: u128, target: u128, is_admin: bool)
    ensures
        member_access_spec(Some(target), target, is_admin) == AccessDecision::Allow,
        requester != target && !is_admin ==> member_access_spec(Some(requester), target, is_admin)
            == AccessDecision::Forbidden,
{
}

} // verus!
