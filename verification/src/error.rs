use vstd::prelude::*;

verus! {

/// Errors that the service layer reports to its callers.
#[derive(Debug, Clone, Copy, PartialEq, Eq, Structural)]
pub enum ServiceError {
    Constraint,
    AlreadyExists,
    InvalidStatus,
    InvalidInput,
    ApplicationAlreadyProcessed,
    NotFound,
    NotActive,
    DatabaseError,
    Unauthorized,
    Forbidden,
    IdpError,
    InvalidIdpUserId,
    UserNotFound,
    ProviderAlreadyLinked,
    ProviderNotFound,
    CannotUnlinkLastProvider,
    InvalidTemplate,
    /// The Auth0 management or userinfo API failed.
    Auth0Error,
    /// An Auth0 subject that is not of the form `provider|id`.
    InvalidAuth0UserId,
    /// A bearer token whose signature has expired.
    TokenExpired,
}

/// What the service layer reads of a database error: whether no row was
/// found, whether a constraint was violated, or anything else.
#[derive(Debug, Clone, Copy, PartialEq, Eq, Structural)]
pub enum DbErrorKind {
    RowNotFound,
    ConstraintViolation,
    Other,
}

/// The service error that a database error of the given kind becomes.
pub open spec fn db_error_to_service(kind: DbErrorKind) -> ServiceError {
    match kind {
        DbErrorKind::RowNotFound => ServiceError::NotFound,
        DbErrorKind::ConstraintViolation => ServiceError::Constraint,
        DbErrorKind::Other => ServiceError::DatabaseError,
    }
}

impl ServiceError {
    /// Maps a database error to a service error: a missing row is
    /// `NotFound`, a violated constraint is `Constraint`, anything else is
    /// `DatabaseError`.
    pub fn from_db(kind: DbErrorKind) -> (e: ServiceError)
        ensures
            e == db_error_to_service(kind),
    {
        match kind {
            DbErrorKind::RowNotFound => ServiceError::NotFound,
            DbErrorKind::ConstraintViolation => ServiceError::Constraint,
            DbErrorKind::Other => ServiceError::DatabaseError,
        }
    }
}

/// Lifts a database result into a service result.
pub fn db_result<T>(r: Result<T, DbErrorKind>) -> (s: Result<T, ServiceError>)
    ensures
        match r {
            Ok(v) => s == Ok::<T, ServiceError>(v),
            Err(k) => s == Err::<T, ServiceError>(db_error_to_service(k)),
        },
{
    match r {
        Ok(v) => Ok(v),
        Err(k) => Err(ServiceError::from_db(k)),
    }
}

/// Errors of the identity-provider mapping repository.
#[derive(Debug)]
pub enum AuthProviderRepoError {
    NotFound,
    AlreadyExists,
    Unavailable(String),
}

/// Maps a database error to an identity-provider mapping error; `message`
/// is the database's own description, kept for anything but a missing row
/// or a violated constraint.
pub fn auth_provider_error_from_db(kind: DbErrorKind, message: String) -> (e: AuthProviderRepoError)
    ensures
        kind == DbErrorKind::RowNotFound ==> e == AuthProviderRepoError::NotFound,
        kind == DbErrorKind::ConstraintViolation ==> e == AuthProviderRepoError::AlreadyExists,
        kind == DbErrorKind::Other ==> e == AuthProviderRepoError::Unavailable(message),
{
    match kind {
        DbErrorKind::RowNotFound => AuthProviderRepoError::NotFound,
        DbErrorKind::ConstraintViolation => AuthProviderRepoError::AlreadyExists,
        DbErrorKind::Other => AuthProviderRepoError::Unavailable(message),
    }
}

} // verus!
