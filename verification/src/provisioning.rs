//! Creating an account at the identity provider and mapping it to a freshly
//! drawn member id.
use vstd::prelude::*;
use vstd::string::*;
use crate::error::ServiceError;
use crate::identity::{
    is_random_id, last_segment, parse_auth0_user_id, random_user_id, single_bar_at,
    user_id_from_location,
};
use crate::idp_requests::{is_success, Reply};

verus! {

/// The identity providers that accounts are created at.
#[derive(Debug, Clone, Copy, PartialEq, Eq, Structural)]
pub enum IdpKind {
    Keycloak,
    Auth0,
}

/// The error with which a provider's own failures are reported.
pub open spec fn idp_failure(kind: IdpKind) -> ServiceError {
    match kind {
        IdpKind::Keycloak => ServiceError::IdpError,
        IdpKind::Auth0 => ServiceError::Auth0Error,
    }
}

/// The position of the single `|` of an Auth0 subject.
pub open spec fn bar_position(s: Seq<char>) -> int {
    choose|p: int| single_bar_at(s, p)
}

/// The provider name and provider user id of the account that the answer to
/// a user creation names. Keycloak's answer carries the new user's URL in
/// its `Location` header (`body`), whose last segment is the user id; the
/// account's provider is `keycloak`. Auth0's answer carries the new user's
/// subject (`body`), which is split at its `|` into the provider name and
/// kept whole as the provider user id. A request that was not sent, was
/// refused, or whose answer lacks the value is the provider's failure.
pub open spec fn created_account_spec(kind: IdpKind, reply: Reply<String>) -> Result<(Seq<char>, Seq<char>), ServiceError> {
    match reply {
        Reply::NotSent => Err(idp_failure(kind)),
        Reply::Answered { status, body } => if !is_success(status) {
            Err(idp_failure(kind))
        } else {
            match body {
                None => Err(idp_failure(kind)),
                Some(v) => match kind {
                    IdpKind::Keycloak => Ok(("keycloak"@, last_segment(v@))),
                    IdpKind::Auth0 => if exists|p: int| single_bar_at(v@, p) {
                        Ok((v@.take(bar_position(v@)), v@))
                    } else {
                        Err(ServiceError::InvalidAuth0UserId)
                    },
                },
            }
        },
    }
}

/// The plain values of an account result.
pub open spec fn account_view(r: Result<(String, String), ServiceError>) -> Result<(Seq<char>, Seq<char>), ServiceError> {
    match r {
        Ok((n, i)) => Ok((n@, i@)),
        Err(e) => Err(e),
    }
}

proof fn lemma_single_bar_unique(s: Seq<char>, p: int, q: int)
    requires
        single_bar_at(s, p),
        single_bar_at(s, q),
    ensures
        p == q,
{
    if p != q {
        assert(s[q] == '|');
    }
}

pub fn created_account(kind: IdpKind, reply: Reply<String>) -> (r: Result<(String, String), ServiceError>)
    ensures
        account_view(r) == created_account_spec(kind, reply),
{
    let failure = match kind {
        IdpKind::Keycloak => ServiceError::IdpError,
        IdpKind::Auth0 => ServiceError::Auth0Error,
    };
    match reply {
        Reply::NotSent => Err(failure),
        Reply::Answered { status, body } => if status < 200 || status > 299 {
            Err(failure)
        } else {
            match body {
                None => Err(failure),
                Some(v) => match kind {
                    IdpKind::Keycloak => match user_id_from_location(Some(v.as_str())) {
                        Ok(id) => Ok((String::from_str("keycloak"), id)),
                        Err(e) => Err(e),
                    },
                    IdpKind::Auth0 => {
                        let r = parse_auth0_user_id(v.as_str());
                        proof {
                            if r is Ok {
                                let name = r->Ok_0.0;
                                let p = choose|p: int| single_bar_at(v@, p) && name@ == v@.take(p);
                                lemma_single_bar_unique(v@, p, bar_position(v@));
                            }
                        }
                        r
                    },
                },
            }
        },
    }
}

/// Where creating an account stands.
#[derive(Debug)]
pub enum CreateAccountStep {
    /// Send the new user to the provider.
    Request,
    /// Store that the provider account belongs to the member `user_id`.
    MapAccount { provider_name: String, provider_user_id: String, user_id: u128 },
    /// The member id and the provider user id, or why creation failed.
    Done(Result<(u128, String), ServiceError>),
}

/// Creating a user at the identity provider, then mapping the new account to
/// a freshly drawn member id.
#[derive(Debug)]
pub struct CreateAccountFlow {
    pub kind: IdpKind,
    pub step: CreateAccountStep,
}

impl CreateAccountFlow {
    pub fn start(kind: IdpKind) -> (f: CreateAccountFlow)
        ensures
            f.kind == kind,
            f.step is Request,
    {
        CreateAccountFlow { kind, step: CreateAccountStep::Request }
    }

    /// After the provider answered: a refused or unreadable answer ends the
    /// creation; otherwise the account is to be mapped to a freshly drawn
    /// id.
    pub fn answered(self, reply: Reply<String>) -> (r: CreateAccountFlow)
        requires
            self.step is Request,
        ensures
            r.kind == self.kind,
            match created_account_spec(self.kind, reply) {
                Err(e) => r.step == CreateAccountStep::Done(Err(e)),
                Ok((name, id)) => r.step matches CreateAccountStep::MapAccount { provider_name, provider_user_id, user_id }
                    && provider_name@ == name
                    && provider_user_id@ == id
                    && is_random_id(user_id),
            },
    {
        match created_account(self.kind, reply) {
            Err(e) => CreateAccountFlow { kind: self.kind, step: CreateAccountStep::Done(Err(e)) },
            Ok((provider_name, provider_user_id)) => {
                let user_id = random_user_id();
                CreateAccountFlow { kind: self.kind, step: CreateAccountStep::MapAccount { provider_name, provider_user_id, user_id } }
            },
        }
    }

    /// After the mapping was stored (or not): the member id is handed out
    /// only once the mapping to it exists.
    pub fn mapped(self, stored: bool) -> (r: CreateAccountFlow)
        requires
            self.step is MapAccount,
        ensures
            r.kind == self.kind,
            match self.step {
                CreateAccountStep::MapAccount { provider_user_id, user_id, .. } => if stored {
                    r.step == CreateAccountStep::Done(Ok::<(u128, String), ServiceError>((user_id, provider_user_id)))
                } else {
                    r.step == CreateAccountStep::Done(Err::<(u128, String), ServiceError>(ServiceError::DatabaseError))
                },
                _ => false,
            },
    {
        match self.step {
            CreateAccountStep::MapAccount { provider_user_id, user_id, .. } => if stored {
                CreateAccountFlow { kind: self.kind, step: CreateAccountStep::Done(Ok((user_id, provider_user_id))) }
            } else {
                CreateAccountFlow { kind: self.kind, step: CreateAccountStep::Done(Err(ServiceError::DatabaseError)) }
            },
            step => CreateAccountFlow { kind: self.kind, step },
        }
    }
}

} // verus!
