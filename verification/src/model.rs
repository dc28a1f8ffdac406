use vstd::prelude::*;

verus! {

/// A calendar date, carried through the library's decisions unread.
#[verifier::external_type_specification]
#[verifier::external_body]
pub struct ExNaiveDate(chrono::NaiveDate);

/// A stored e-mail template: its name, subject line and HTML body, both of
/// which may hold the placeholders `{name}` and `{role_name}`.
#[derive(Debug)]
pub struct EmailTemplate {
    pub name: String,
    pub subject: String,
    pub body_html: String,
}

/// A role that members can hold.
#[derive(Debug)]
pub struct Role {
    pub name: String,
    pub color: Option<String>,
    pub description: Option<String>,
}

impl Default for Role {
    fn default() -> (r: Role)
        ensures
            r.name@ == Seq::<char>::empty(),
            r.color is None,
            r.description is None,
    {
        Role { name: String::new(), color: None, description: None }
    }
}

/// A role together with how many members it has and how many of those
/// memberships are in force today.
#[derive(Debug)]
pub struct RoleStats {
    pub name: String,
    pub color: Option<String>,
    pub description: Option<String>,
    pub member_count: Option<i64>,
    pub active_member_count: Option<i64>,
}

/// Paging, search and ordering of the role statistics listing.
#[derive(Debug)]
pub struct RolesWithStatsParams {
    pub page_size: Option<u64>,
    pub offset: Option<u64>,
    pub search: Option<String>,
    pub order_by: Option<String>,
    pub order_desc: Option<bool>,
}

impl RolesWithStatsParams {
    /// Parameters that ask for everything: no paging, no search, the default
    /// order.
    pub fn new() -> (p: RolesWithStatsParams)
        ensures
            p.page_size is None,
            p.offset is None,
            p.search is None,
            p.order_by is None,
            p.order_desc is None,
    {
        RolesWithStatsParams { page_size: None, offset: None, search: None, order_by: None, order_desc: None }
    }
}

impl Default for RolesWithStatsParams {
    fn default() -> (p: RolesWithStatsParams)
        ensures
            p.page_size is None,
            p.offset is None,
            p.search is None,
            p.order_by is None,
            p.order_desc is None,
    {
        RolesWithStatsParams::new()
    }
}

/// Paging, search, role and date filters of the member listing.
#[derive(Debug)]
pub struct MembersWithRolesParams {
    pub valid_from: Option<chrono::NaiveDate>,
    pub valid_until: Option<chrono::NaiveDate>,
    pub roles: Option<Vec<String>>,
    pub search: Option<String>,
    pub order_by: Option<String>,
    pub order_desc: Option<bool>,
    pub page_size: Option<u64>,
    pub offset: Option<u64>,
}

impl MembersWithRolesParams {
    /// Parameters that ask for every member: no filter, no paging.
    pub fn new() -> (p: MembersWithRolesParams)
        ensures
            p.valid_from is None,
            p.valid_until is None,
            p.roles is None,
            p.search is None,
            p.order_by is None,
            p.order_desc is None,
            p.page_size is None,
            p.offset is None,
    {
        MembersWithRolesParams {
            valid_from: None,
            valid_until: None,
            roles: None,
            search: None,
            order_by: None,
            order_desc: None,
            page_size: None,
            offset: None,
        }
    }
}

/// A user as the Auth0 management API describes it.
#[derive(Debug)]
pub struct Auth0User {
    pub user_id: String,
    pub email: Option<String>,
    pub given_name: Option<String>,
    pub family_name: Option<String>,
    pub name: Option<String>,
}

/// A user as the Keycloak admin API describes it.
#[derive(Debug)]
pub struct IdpUser {
    pub id: String,
    pub email: Option<String>,
    pub first_name: Option<String>,
    pub last_name: Option<String>,
}

/// The tokens that a refresh grant hands back.
#[derive(Debug)]
pub struct RefreshedTokens {
    pub access_token: String,
    pub refresh_token: Option<String>,
}

/// Who made a request: the internal user id, the bearer token, the profile
/// the identity provider gave, and which provider account it came from.
#[derive(Debug)]
pub struct AuthInfo {
    pub user_id: u128,
    pub access_token: String,
    pub first_name: String,
    pub last_name: String,
    pub email: String,
    pub provider_name: String,
    pub provider_user_id: String,
}

/// A member of the registry.
#[derive(Debug)]
pub struct Member {
    pub user_id: u128,
    pub email: String,
    pub first_name: String,
    pub last_name: String,
    pub full_name: Option<String>,
    pub home_municipality: String,
    pub has_accepted_policies: bool,
}

/// A member to be added to the registry.
#[derive(Debug)]
pub struct NewMember {
    pub user_id: u128,
    pub email: String,
    pub first_name: String,
    pub last_name: String,
    pub home_municipality: String,
    pub has_accepted_policies: bool,
}

/// One period during which a member holds a role.
#[derive(Debug)]
pub struct RoleMember {
    pub user_id: u128,
    pub role_name: String,
    pub valid_from: chrono::NaiveDate,
    pub valid_until: Option<chrono::NaiveDate>,
}

/// An application for a role, as submitted.
#[derive(Debug)]
pub struct NewApplication {
    pub user_id: u128,
    pub role_name: String,
    pub valid_until: chrono::NaiveDate,
    pub stripe_payment_id: Option<String>,
    pub application_text: Option<String>,
    pub optional_roles: Option<Vec<String>>,
}

/// A role, for one period, that members can apply for.
#[derive(Debug)]
pub struct ApplicationTargetableRole {
    pub role_name: String,
    pub valid_until: chrono::NaiveDate,
    pub active: bool,
    pub optional_roles: Option<Vec<String>>,
    pub payment_link: Option<String>,
}

/// One identity-provider account linked to a member.
#[derive(Debug)]
pub struct UserAuthProvider {
    pub user_id: u128,
    pub provider_name: String,
    pub provider_user_id: String,
}

} // verus!
