//! Decisions over the identity-provider accounts linked to a member: whether
//! the member is an administrator, linking and unlinking accounts, and the
//! member record completed with the provider's e-mail address.
use vstd::prelude::*;
use crate::error::{db_error_to_service, DbErrorKind, ServiceError};
use crate::model::Member;

verus! {

// ---------------------------------------------------------------------------
// Administrator check
// ---------------------------------------------------------------------------

#[derive(Debug)]
pub enum IsAdminStep {
    /// Look up the member's provider accounts.
    FindProviders,
    /// Ask whether `providers[checked]` holds the admin role.
    CheckRole,
    Done(Result<bool, ServiceError>),
}

#[derive(Debug)]
pub enum IsAdminEvent {
    /// The provider user ids, or `None` where the lookup failed.
    ProvidersFound(Option<Vec<String>>),
    /// Whether the account holds the role; `None` where the provider could
    /// not be asked.
    RoleChecked(Option<bool>),
}

/// Whether a member is an administrator: whether any linked account holds
/// the admin role at the identity provider. Accounts are asked in turn and
/// the first yes ends the search; an account that cannot be asked counts as
/// a no.
#[derive(Debug)]
pub struct IsAdminFlow {
    pub providers: Vec<String>,
    pub checked: usize,
    pub step: IsAdminStep,
}

impl IsAdminFlow {
    pub fn start() -> (f: IsAdminFlow)
        ensures
            f.step is FindProviders,
            f.wf(),
    {
        IsAdminFlow { providers: Vec::new(), checked: 0, step: IsAdminStep::FindProviders }
    }

    pub open spec fn wf(self) -> bool {
        &&& self.checked <= self.providers.len()
        &&& self.step is CheckRole ==> self.checked < self.providers.len()
    }

    pub open spec fn next(self, e: IsAdminEvent) -> IsAdminFlow {
        match (self.step, e) {
            (IsAdminStep::FindProviders, IsAdminEvent::ProvidersFound(None)) =>
                IsAdminFlow { step: IsAdminStep::Done(Err(ServiceError::DatabaseError)), ..self },
            (IsAdminStep::FindProviders, IsAdminEvent::ProvidersFound(Some(ps))) =>
                IsAdminFlow {
                    providers: ps,
                    checked: 0,
                    step: if ps.len() == 0 { IsAdminStep::Done(Ok(false)) } else { IsAdminStep::CheckRole },
                },
            (IsAdminStep::CheckRole, IsAdminEvent::RoleChecked(answer)) =>
                if answer == Some(true) {
                    IsAdminFlow { step: IsAdminStep::Done(Ok(true)), ..self }
                } else if self.checked + 1 < self.providers.len() {
                    IsAdminFlow { checked: (self.checked + 1) as usize, ..self }
                } else {
                    IsAdminFlow { checked: (self.checked + 1) as usize, step: IsAdminStep::Done(Ok(false)), ..self }
                },
            (step, _) => IsAdminFlow { step, ..self },
        }
    }

    pub fn advance(self, e: IsAdminEvent) -> (r: IsAdminFlow)
        requires
            self.wf(),
        ensures
            r == self.next(e),
            r.wf(),
    {
        let IsAdminFlow { providers, checked, step } = self;
        match (step, e) {
            (IsAdminStep::FindProviders, IsAdminEvent::ProvidersFound(None)) =>
                IsAdminFlow { providers, checked, step: IsAdminStep::Done(Err(ServiceError::DatabaseError)) },
            (IsAdminStep::FindProviders, IsAdminEvent::ProvidersFound(Some(ps))) => {
                let step = if ps.len() == 0 { IsAdminStep::Done(Ok(false)) } else { IsAdminStep::CheckRole };
                IsAdminFlow { providers: ps, checked: 0, step }
            },
            (IsAdminStep::CheckRole, IsAdminEvent::RoleChecked(answer)) => {
                let yes = match answer {
                    Some(b) => b,
                    None => false,
                };
                if yes {
                    IsAdminFlow { providers, checked, step: IsAdminStep::Done(Ok(true)) }
                } else if checked + 1 < providers.len() {
                    IsAdminFlow { providers, checked: checked + 1, step: IsAdminStep::CheckRole }
                } else {
                    IsAdminFlow { providers, checked: checked + 1, step: IsAdminStep::Done(Ok(false)) }
                }
            },
            (step, _) => IsAdminFlow { providers, checked, step },
        }
    }
}

/// A provider that cannot be asked counts as saying no; the first account
/// that holds the role makes the member an administrator; a member without
/// linked accounts is not one.
pub proof fn law_admin_check(f: IsAdminFlow, none: Vec<String>)
    requires
        f.wf(),
        none.len() == 0,
    ensures
        f.next(IsAdminEvent::RoleChecked(None)) == f.next(IsAdminEvent::RoleChecked(Some(false))),
        f.step is CheckRole ==> f.next(IsAdminEvent::RoleChecked(Some(true))).step
            == IsAdminStep::Done(Ok::<bool, ServiceError>(true)),
        f.step is FindProviders ==> f.next(IsAdminEvent::ProvidersFound(Some(none))).step
            == IsAdminStep::Done(Ok::<bool, ServiceError>(false)),
{
}

/// A member is found to be an administrator only on a yes from one of the
/// linked accounts; when the last account answers no, or cannot be asked,
/// the member is not one.
pub proof fn law_admin_only_on_a_yes(f: IsAdminFlow, e: IsAdminEvent)
    requires
        f.wf(),
    ensures
        f.next(e).step == IsAdminStep::Done(Ok::<bool, ServiceError>(true)) ==> (f.step is CheckRole && e
            == IsAdminEvent::RoleChecked(Some(true))) || f.step == IsAdminStep::Done(Ok::<bool, ServiceError>(true)),
        f.step is CheckRole && f.checked + 1 == f.providers.len() ==> {
            &&& f.next(IsAdminEvent::RoleChecked(Some(false))).step == IsAdminStep::Done(Ok::<bool, ServiceError>(false))
            &&& f.next(IsAdminEvent::RoleChecked(None)).step == IsAdminStep::Done(Ok::<bool, ServiceError>(false))
        },
        f.step is CheckRole && f.checked + 1 < f.providers.len() ==> {
            let g = f.next(IsAdminEvent::RoleChecked(Some(false)));
            g.step is CheckRole && g.checked == f.checked + 1
        },
{
}

// ---------------------------------------------------------------------------
// Linking and unlinking accounts
// ---------------------------------------------------------------------------

#[derive(Debug)]
pub enum UnlinkProviderStep {
    /// Count the member's linked accounts.
    CountProviders,
    /// Delete the link to the provider.
    Delete,
    Done(Result<(), ServiceError>),
}

#[derive(Debug)]
pub enum UnlinkProviderEvent {
    /// How many accounts are linked; `None` where the lookup failed.
    ProvidersCounted(Option<usize>),
    /// Whether a link was deleted; `None` where the deletion failed.
    Deleted(Option<bool>),
}

/// Unlinking a provider from a member, which must keep at least one linked
/// account.
#[derive(Debug)]
pub struct UnlinkProviderFlow {
    pub step: UnlinkProviderStep,
}

impl UnlinkProviderFlow {
    pub fn start() -> (f: UnlinkProviderFlow)
        ensures
            f.step is CountProviders,
    {
        UnlinkProviderFlow { step: UnlinkProviderStep::CountProviders }
    }

    pub open spec fn next(self, e: UnlinkProviderEvent) -> UnlinkProviderFlow {
        match (self.step, e) {
            (UnlinkProviderStep::CountProviders, UnlinkProviderEvent::ProvidersCounted(None)) =>
                UnlinkProviderFlow { step: UnlinkProviderStep::Done(Err(ServiceError::DatabaseError)) },
            (UnlinkProviderStep::CountProviders, UnlinkProviderEvent::ProvidersCounted(Some(n))) => if n <= 1 {
                UnlinkProviderFlow { step: UnlinkProviderStep::Done(Err(ServiceError::CannotUnlinkLastProvider)) }
            } else {
                UnlinkProviderFlow { step: UnlinkProviderStep::Delete }
            },
            (UnlinkProviderStep::Delete, UnlinkProviderEvent::Deleted(None)) =>
                UnlinkProviderFlow { step: UnlinkProviderStep::Done(Err(ServiceError::DatabaseError)) },
            (UnlinkProviderStep::Delete, UnlinkProviderEvent::Deleted(Some(deleted))) => if deleted {
                UnlinkProviderFlow { step: UnlinkProviderStep::Done(Ok(())) }
            } else {
                UnlinkProviderFlow { step: UnlinkProviderStep::Done(Err(ServiceError::ProviderNotFound)) }
            },
            (step, _) => UnlinkProviderFlow { step },
        }
    }

    pub fn advance(self, e: UnlinkProviderEvent) -> (r: UnlinkProviderFlow)
        ensures
            r == self.next(e),
    {
        match (self.step, e) {
            (UnlinkProviderStep::CountProviders, UnlinkProviderEvent::ProvidersCounted(None)) =>
                UnlinkProviderFlow { step: UnlinkProviderStep::Done(Err(ServiceError::DatabaseError)) },
            (UnlinkProviderStep::CountProviders, UnlinkProviderEvent::ProvidersCounted(Some(n))) => if n <= 1 {
                UnlinkProviderFlow { step: UnlinkProviderStep::Done(Err(ServiceError::CannotUnlinkLastProvider)) }
            } else {
                UnlinkProviderFlow { step: UnlinkProviderStep::Delete }
            },
            (UnlinkProviderStep::Delete, UnlinkProviderEvent::Deleted(None)) =>
                UnlinkProviderFlow { step: UnlinkProviderStep::Done(Err(ServiceError::DatabaseError)) },
            (UnlinkProviderStep::Delete, UnlinkProviderEvent::Deleted(Some(deleted))) => if deleted {
                UnlinkProviderFlow { step: UnlinkProviderStep::Done(Ok(())) }
            } else {
                UnlinkProviderFlow { step: UnlinkProviderStep::Done(Err(ServiceError::ProviderNotFound)) }
            },
            (step, _) => UnlinkProviderFlow { step },
        }
    }
}

/// The last linked account is never unlinked: with one account or none the
/// unlinking ends with `CannotUnlinkLastProvider` before anything is
/// deleted.
pub proof fn law_last_provider_is_kept(f: UnlinkProviderFlow, n: usize)
    requires
        f.step is CountProviders,
        n <= 1,
    ensures
        f.next(UnlinkProviderEvent::ProvidersCounted(Some(n))).step
            == UnlinkProviderStep::Done(Err(ServiceError::CannotUnlinkLastProvider)),
{
}

/// With two or more linked accounts the link is deleted; the unlinking
/// succeeds only where a link was in fact deleted, reports
/// `ProviderNotFound` where there was none to delete, and a failed lookup or
/// deletion is a database error.
pub proof fn law_unlink_outcomes(f: UnlinkProviderFlow, n: usize, e: UnlinkProviderEvent)
    ensures
        f.step is CountProviders && n >= 2 ==> f.next(UnlinkProviderEvent::ProvidersCounted(Some(n))).step is Delete,
        f.step is CountProviders ==> f.next(UnlinkProviderEvent::ProvidersCounted(None)).step
            == UnlinkProviderStep::Done(Err(ServiceError::DatabaseError)),
        f.step is Delete ==> {
            &&& f.next(UnlinkProviderEvent::Deleted(Some(true))).step == UnlinkProviderStep::Done(Ok(()))
            &&& f.next(UnlinkProviderEvent::Deleted(Some(false))).step
                == UnlinkProviderStep::Done(Err(ServiceError::ProviderNotFound))
            &&& f.next(UnlinkProviderEvent::Deleted(None)).step == UnlinkProviderStep::Done(Err(ServiceError::DatabaseError))
        },
        f.next(e).step == UnlinkProviderStep::Done(Ok(())) ==> (f.step is Delete && e == UnlinkProviderEvent::Deleted(
            Some(true),
        )) || f.step == UnlinkProviderStep::Done(Ok(())),
        f.next(e).step is Delete ==> f.step is Delete || (f.step is CountProviders && (e matches UnlinkProviderEvent::ProvidersCounted(
            Some(m),
        ) && m >= 2)),
{
}

#[derive(Debug)]
pub enum LinkProviderStep {
    /// Ask whether the member already has an account of this provider.
    CheckExisting,
    /// Store the link.
    Create,
    Done(Result<(), ServiceError>),
}

#[derive(Debug)]
pub enum LinkProviderEvent {
    /// Whether such a link exists; `None` where the lookup failed.
    Checked(Option<bool>),
    Created(bool),
}

/// Linking a provider account to a member, at most one account per provider.
#[derive(Debug)]
pub struct LinkProviderFlow {
    pub step: LinkProviderStep,
}

impl LinkProviderFlow {
    pub fn start() -> (f: LinkProviderFlow)
        ensures
            f.step is CheckExisting,
    {
        LinkProviderFlow { step: LinkProviderStep::CheckExisting }
    }

    pub open spec fn next(self, e: LinkProviderEvent) -> LinkProviderFlow {
        match (self.step, e) {
            (LinkProviderStep::CheckExisting, LinkProviderEvent::Checked(None)) =>
                LinkProviderFlow { step: LinkProviderStep::Done(Err(ServiceError::DatabaseError)) },
            (LinkProviderStep::CheckExisting, LinkProviderEvent::Checked(Some(exists))) => if exists {
                LinkProviderFlow { step: LinkProviderStep::Done(Err(ServiceError::ProviderAlreadyLinked)) }
            } else {
                LinkProviderFlow { step: LinkProviderStep::Create }
            },
            (LinkProviderStep::Create, LinkProviderEvent::Created(ok)) => if ok {
                LinkProviderFlow { step: LinkProviderStep::Done(Ok(())) }
            } else {
                LinkProviderFlow { step: LinkProviderStep::Done(Err(ServiceError::DatabaseError)) }
            },
            (step, _) => LinkProviderFlow { step },
        }
    }

    pub fn advance(self, e: LinkProviderEvent) -> (r: LinkProviderFlow)
        ensures
            r == self.next(e),
    {
        match (self.step, e) {
            (LinkProviderStep::CheckExisting, LinkProviderEvent::Checked(None)) =>
                LinkProviderFlow { step: LinkProviderStep::Done(Err(ServiceError::DatabaseError)) },
            (LinkProviderStep::CheckExisting, LinkProviderEvent::Checked(Some(exists))) => if exists {
                LinkProviderFlow { step: LinkProviderStep::Done(Err(ServiceError::ProviderAlreadyLinked)) }
            } else {
                LinkProviderFlow { step: LinkProviderStep::Create }
            },
            (LinkProviderStep::Create, LinkProviderEvent::Created(ok)) => if ok {
                LinkProviderFlow { step: LinkProviderStep::Done(Ok(())) }
            } else {
                LinkProviderFlow { step: LinkProviderStep::Done(Err(ServiceError::DatabaseError)) }
            },
            (step, _) => LinkProviderFlow { step },
        }
    }
}

/// A provider that is already linked is refused with
/// `ProviderAlreadyLinked`; otherwise the link is stored, and linking
/// succeeds only once it has been.
pub proof fn law_link_outcomes(f: LinkProviderFlow, e: LinkProviderEvent)
    ensures
        f.step is CheckExisting ==> {
            &&& f.next(LinkProviderEvent::Checked(Some(true))).step
                == LinkProviderStep::Done(Err(ServiceError::ProviderAlreadyLinked))
            &&& f.next(LinkProviderEvent::Checked(Some(false))).step is Create
            &&& f.next(LinkProviderEvent::Checked(None)).step == LinkProviderStep::Done(Err(ServiceError::DatabaseError))
        },
        f.step is Create ==> {
            &&& f.next(LinkProviderEvent::Created(true)).step == LinkProviderStep::Done(Ok(()))
            &&& f.next(LinkProviderEvent::Created(false)).step == LinkProviderStep::Done(Err(ServiceError::DatabaseError))
        },
        f.next(e).step == LinkProviderStep::Done(Ok(())) ==> (f.step is Create && e == LinkProviderEvent::Created(true))
            || f.step == LinkProviderStep::Done(Ok(())),
{
}

// ---------------------------------------------------------------------------
// Member completed with the provider's data
// ---------------------------------------------------------------------------

#[derive(Debug)]
pub enum MemberWithUserStep {
    /// Look up the member's provider accounts.
    FindProviders,
    /// Fetch the user `providers[0]` (the account linked first) from the
    /// identity provider.
    FetchIdpUser,
    /// Read the member record.
    FetchMember,
    Done(Result<Member, ServiceError>),
}

#[derive(Debug)]
pub enum MemberWithUserEvent {
    ProvidersFound(Option<Vec<String>>),
    /// The provider's e-mail address of the user (which may be absent), or
    /// `Err` where the user could not be fetched.
    IdpUserFetched(Result<Option<String>, ()>),
    MemberFetched(Result<Member, DbErrorKind>),
}

/// A member record whose e-mail address is the one the identity provider
/// holds, where it holds one.
#[derive(Debug)]
pub struct MemberWithUserFlow {
    pub providers: Vec<String>,
    pub idp_email: Option<String>,
    pub step: MemberWithUserStep,
}

/// The member with its e-mail address replaced by the provider's, where
/// there is one.
pub open spec fn with_idp_email(m: Member, idp_email: Option<String>) -> Member {
    match idp_email {
        Some(e) => Member { email: e, ..m },
        None => m,
    }
}

impl MemberWithUserFlow {
    pub fn start() -> (f: MemberWithUserFlow)
        ensures
            f.step is FindProviders,
            f.idp_email is None,
            f.wf(),
    {
        MemberWithUserFlow { providers: Vec::new(), idp_email: None, step: MemberWithUserStep::FindProviders }
    }

    pub open spec fn wf(self) -> bool {
        self.step is FetchIdpUser ==> self.providers.len() > 0
    }

    pub open spec fn next(self, e: MemberWithUserEvent) -> MemberWithUserFlow {
        match (self.step, e) {
            (MemberWithUserStep::FindProviders, MemberWithUserEvent::ProvidersFound(None)) =>
                MemberWithUserFlow { step: MemberWithUserStep::Done(Err(ServiceError::DatabaseError)), ..self },
            (MemberWithUserStep::FindProviders, MemberWithUserEvent::ProvidersFound(Some(ps))) => if ps.len() == 0 {
                MemberWithUserFlow { providers: ps, step: MemberWithUserStep::Done(Err(ServiceError::NotFound)), ..self }
            } else {
                MemberWithUserFlow { providers: ps, step: MemberWithUserStep::FetchIdpUser, ..self }
            },
            (MemberWithUserStep::FetchIdpUser, MemberWithUserEvent::IdpUserFetched(Err(()))) =>
                MemberWithUserFlow { step: MemberWithUserStep::Done(Err(ServiceError::IdpError)), ..self },
            (MemberWithUserStep::FetchIdpUser, MemberWithUserEvent::IdpUserFetched(Ok(email))) =>
                MemberWithUserFlow { idp_email: email, step: MemberWithUserStep::FetchMember, ..self },
            (MemberWithUserStep::FetchMember, MemberWithUserEvent::MemberFetched(Err(k))) =>
                MemberWithUserFlow { step: MemberWithUserStep::Done(Err(db_error_to_service(k))), ..self },
            (MemberWithUserStep::FetchMember, MemberWithUserEvent::MemberFetched(Ok(m))) =>
                MemberWithUserFlow {
                    idp_email: None,
                    step: MemberWithUserStep::Done(Ok(with_idp_email(m, self.idp_email))),
                    ..self
                },
            (step, _) => MemberWithUserFlow { step, ..self },
        }
    }

    /// The account that the identity provider is asked about: the account
    /// linked first.
    pub fn idp_account(&self) -> (a: &String)
        requires
            self.wf(),
            self.step is FetchIdpUser,
        ensures
            *a == self.providers@[0],
    {
        &self.providers[0]
    }

    pub fn advance(self, e: MemberWithUserEvent) -> (r: MemberWithUserFlow)
        requires
            self.wf(),
        ensures
            r == self.next(e),
            r.wf(),
    {
        let MemberWithUserFlow { providers, idp_email, step } = self;
        match (step, e) {
            (MemberWithUserStep::FindProviders, MemberWithUserEvent::ProvidersFound(None)) =>
                MemberWithUserFlow { providers, idp_email, step: MemberWithUserStep::Done(Err(ServiceError::DatabaseError)) },
            (MemberWithUserStep::FindProviders, MemberWithUserEvent::ProvidersFound(Some(ps))) => if ps.len() == 0 {
                MemberWithUserFlow { providers: ps, idp_email, step: MemberWithUserStep::Done(Err(ServiceError::NotFound)) }
            } else {
                MemberWithUserFlow { providers: ps, idp_email, step: MemberWithUserStep::FetchIdpUser }
            },
            (MemberWithUserStep::FetchIdpUser, MemberWithUserEvent::IdpUserFetched(Err(()))) =>
                MemberWithUserFlow { providers, idp_email, step: MemberWithUserStep::Done(Err(ServiceError::IdpError)) },
            (MemberWithUserStep::FetchIdpUser, MemberWithUserEvent::IdpUserFetched(Ok(email))) =>
                MemberWithUserFlow { providers, idp_email: email, step: MemberWithUserStep::FetchMember },
            (MemberWithUserStep::FetchMember, MemberWithUserEvent::MemberFetched(Err(k))) =>
                MemberWithUserFlow { providers, idp_email, step: MemberWithUserStep::Done(Err(ServiceError::from_db(k))) },
            (MemberWithUserStep::FetchMember, MemberWithUserEvent::MemberFetched(Ok(m))) => {
                let member = match idp_email {
                    Some(e) => Member { email: e, ..m },
                    None => m,
                };
                MemberWithUserFlow { providers, idp_email: None, step: MemberWithUserStep::Done(Ok(member)) }
            },
            (step, _) => MemberWithUserFlow { providers, idp_email, step },
        }
    }
}

/// The identity provider is asked about a member only where an account is
/// linked (a member without one is `NotFound`); the member record then comes
/// back with the e-mail address that the provider holds, where it holds one,
/// and unchanged otherwise.
pub proof fn law_member_email_from_idp(
    f: MemberWithUserFlow,
    ps: Vec<String>,
    email: Option<String>,
    m: Member,
)
    ensures
        f.step is FindProviders && ps.len() == 0 ==> f.next(MemberWithUserEvent::ProvidersFound(Some(ps))).step
            == MemberWithUserStep::Done(Err(ServiceError::NotFound)),
        f.step is FindProviders && ps.len() > 0 ==> ({
            let g = f.next(MemberWithUserEvent::ProvidersFound(Some(ps)));
            g.step is FetchIdpUser && g.providers == ps
        }),
        f.step is FetchIdpUser ==> ({
            let g = f.next(MemberWithUserEvent::IdpUserFetched(Ok(email)));
            g.step is FetchMember && g.idp_email == email
        }),
        f.step is FetchIdpUser ==> f.next(MemberWithUserEvent::IdpUserFetched(Err(()))).step
            == MemberWithUserStep::Done(Err(ServiceError::IdpError)),
        f.step is FetchMember && f.idp_email is Some ==> f.next(MemberWithUserEvent::MemberFetched(Ok(m))).step
            == MemberWithUserStep::Done(Ok(Member { email: f.idp_email->0, ..m })),
        f.step is FetchMember && f.idp_email is None ==> f.next(MemberWithUserEvent::MemberFetched(Ok(m))).step
            == MemberWithUserStep::Done(Ok(m)),
{
}

} // verus!
