//! What the identity-provider clients send, and how they read the answers:
//! a request that was not sent or an answer that cannot be read is a
//! failure of the provider, a refused request is reported as the call
//! prescribes.
use vstd::prelude::*;
use vstd::string::*;
use crate::error::ServiceError;
use crate::identity::full_display_name;

verus! {

/// HTTP statuses that count as success: 200 to 299.
pub open spec fn is_success(status: u16) -> bool {
    200 <= status <= 299
}

/// What came of a request: it could not be sent, or it was answered with a
/// status and, for a successful status, a body that could be read (`None`
/// where it could not, or where the answer was not successful).
#[derive(Debug)]
pub enum Reply<T> {
    NotSent,
    Answered { status: u16, body: Option<T> },
}

pub open spec fn reply_result_spec<T>(reply: Reply<T>, failure: ServiceError, refused: ServiceError) -> Result<T, ServiceError> {
    match reply {
        Reply::NotSent => Err(failure),
        Reply::Answered { status, body } => if !is_success(status) {
            Err(refused)
        } else {
            match body {
                Some(t) => Ok(t),
                None => Err(failure),
            }
        },
    }
}

/// The result of a request: its body for a successful answer that could be
/// read; `refused` for an unsuccessful status; `failure` otherwise.
pub fn reply_result<T>(reply: Reply<T>, failure: ServiceError, refused: ServiceError) -> (r: Result<T, ServiceError>)
    ensures
        r == reply_result_spec(reply, failure, refused),
{
    match reply {
        Reply::NotSent => Err(failure),
        Reply::Answered { status, body } => if status < 200 || status > 299 {
            Err(refused)
        } else {
            match body {
                Some(t) => Ok(t),
                None => Err(failure),
            }
        },
    }
}

/// A refreshed session is refused with `Unauthorized` where the provider
/// turns the refresh token down, and fails with `IdpError` where it cannot
/// be asked or answers unreadably.
pub fn refresh_result<T>(reply: Reply<T>) -> (r: Result<T, ServiceError>)
    ensures
        r == reply_result_spec(reply, ServiceError::IdpError, ServiceError::Unauthorized),
{
    reply_result(reply, ServiceError::IdpError, ServiceError::Unauthorized)
}

/// A new Keycloak user, enabled, with a password that need not be changed.
#[derive(Debug)]
pub struct KeycloakNewUser {
    pub email: String,
    pub first_name: String,
    pub last_name: String,
    pub enabled: bool,
    pub credential_type: String,
    pub password: String,
    pub temporary: bool,
}

pub fn keycloak_new_user(email: &str, first_name: &str, last_name: &str, password: &str) -> (u: KeycloakNewUser)
    ensures
        u.email@ == email@,
        u.first_name@ == first_name@,
        u.last_name@ == last_name@,
        u.enabled,
        u.credential_type@ == "password"@,
        u.password@ == password@,
        !u.temporary,
{
    KeycloakNewUser {
        email: String::from_str(email),
        first_name: String::from_str(first_name),
        last_name: String::from_str(last_name),
        enabled: true,
        credential_type: String::from_str("password"),
        password: String::from_str(password),
        temporary: false,
    }
}

/// The Auth0 database connection that users are created in.
pub open spec fn auth0_connection() -> Seq<char> {
    "Username-Password-Authentication"@
}

/// A new Auth0 user in the password database, named by first and last name.
#[derive(Debug)]
pub struct Auth0NewUser {
    pub email: String,
    pub given_name: String,
    pub family_name: String,
    pub name: String,
    pub connection: String,
    pub password: String,
}

pub fn auth0_new_user(email: &str, first_name: &str, last_name: &str, password: &str) -> (u: Auth0NewUser)
    ensures
        u.email@ == email@,
        u.given_name@ == first_name@,
        u.family_name@ == last_name@,
        u.name@ == first_name@ + " "@ + last_name@,
        u.connection@ == auth0_connection(),
        u.password@ == password@,
{
    Auth0NewUser {
        email: String::from_str(email),
        given_name: String::from_str(first_name),
        family_name: String::from_str(last_name),
        name: full_display_name(first_name, last_name),
        connection: String::from_str("Username-Password-Authentication"),
        password: String::from_str(password),
    }
}

/// The Keycloak admin path of a user.
pub fn user_path(user_id: &str) -> (r: String)
    ensures
        r@ == "users/"@ + user_id@,
{
    String::from_str("users/").concat(user_id)
}

/// The Keycloak admin path of a realm role, by name.
pub fn role_path(role_name: &str) -> (r: String)
    ensures
        r@ == "roles/"@ + role_name@,
{
    String::from_str("roles/").concat(role_name)
}

/// The Keycloak admin path of a user's realm role mappings, to which roles
/// are posted to grant them and from which they are deleted to take them
/// away.
pub fn role_mapping_path(user_id: &str) -> (r: String)
    ensures
        r@ == "users/"@ + user_id@ + "/role-mappings/realm"@,
{
    String::from_str("users/").concat(user_id).concat("/role-mappings/realm")
}

/// A realm role as a role mapping names it: its id and its name.
#[derive(Debug)]
pub struct RoleRef {
    pub id: String,
    pub name: String,
}

/// The body of a role-mapping request for one role: a list that holds the
/// role's id and name.
pub fn role_mapping_body(role_id: String, role_name: &str) -> (b: Vec<RoleRef>)
    ensures
        b@.len() == 1,
        b@[0].id == role_id,
        b@[0].name@ == role_name@,
{
    let mut b: Vec<RoleRef> = Vec::new();
    b.push(RoleRef { id: role_id, name: String::from_str(role_name) });
    b
}

} // verus!
