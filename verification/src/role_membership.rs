//! The order in which a role membership is granted, withdrawn and granted in
//! bulk: which identity-provider and database operations come first, and
//! what each failure means for the result.
use vstd::prelude::*;
use crate::audit::AuditAction;
use crate::error::{db_error_to_service, DbErrorKind, ServiceError};
use crate::member::{id_text, role_member_entity};
use crate::repository::{audit_entry, NewAuditLogEntry};

verus! {

// ---------------------------------------------------------------------------
// Granting a role
// ---------------------------------------------------------------------------

/// Where granting a role stands; each step but `Done` names the operation
/// that is to be performed next.
#[derive(Debug)]
pub enum AddRoleMemberStep {
    /// Look up the identity-provider accounts linked to the member.
    FindProviders,
    /// Give the role to the provider account `providers[assigned]`.
    Assign,
    /// Insert the membership row.
    WriteMembership,
    /// Append the `role_member.assign` audit record.
    Audit,
    /// Finished with this result.
    Done(Result<(), ServiceError>),
}

/// The outcome of the operation that the step named.
#[derive(Debug)]
pub enum AddRoleMemberEvent {
    /// The linked provider accounts (their provider user ids, in the order
    /// found), or `None` where the lookup failed.
    ProvidersFound(Option<Vec<String>>),
    /// Whether the identity provider accepted the role assignment.
    RoleAssigned(bool),
    MembershipWritten(Result<(), DbErrorKind>),
    Audited,
}

/// Granting `role_name` to the member `user_id`: first on every linked
/// identity-provider account, then in the database, then in the audit log.
#[derive(Debug)]
pub struct AddRoleMemberFlow {
    pub user_id: u128,
    pub role_name: String,
    /// The provider user ids that carry the member's identity.
    pub providers: Vec<String>,
    /// How many of `providers` already carry the role.
    pub assigned: usize,
    pub step: AddRoleMemberStep,
}

impl AddRoleMemberFlow {
    pub fn start(user_id: u128, role_name: String) -> (f: AddRoleMemberFlow)
        ensures
            f.user_id == user_id,
            f.role_name == role_name,
            f.providers@.len() == 0,
            f.assigned == 0,
            f.step is FindProviders,
            f.wf(),
    {
        AddRoleMemberFlow { user_id, role_name, providers: Vec::new(), assigned: 0, step: AddRoleMemberStep::FindProviders }
    }

    /// The state invariant: no more accounts carry the role than there are,
    /// an account is due only while some remain, and the database is
    /// written, audited or reported successful only once all carry it.
    pub open spec fn wf(self) -> bool {
        &&& self.assigned <= self.providers.len()
        &&& self.step is Assign ==> self.assigned < self.providers.len()
        &&& (self.step is WriteMembership || self.step is Audit || self.step == AddRoleMemberStep::Done(Ok(())))
                ==> self.assigned == self.providers.len()
    }

    /// What the outcome of the current operation makes of the flow. An
    /// outcome that does not belong to the current step changes nothing.
    pub open spec fn next(self, e: AddRoleMemberEvent) -> AddRoleMemberFlow {
        match (self.step, e) {
            (AddRoleMemberStep::FindProviders, AddRoleMemberEvent::ProvidersFound(None)) =>
                AddRoleMemberFlow { step: AddRoleMemberStep::Done(Err(ServiceError::DatabaseError)), ..self },
            (AddRoleMemberStep::FindProviders, AddRoleMemberEvent::ProvidersFound(Some(ps))) =>
                AddRoleMemberFlow {
                    providers: ps,
                    assigned: 0,
                    step: if ps.len() == 0 { AddRoleMemberStep::WriteMembership } else { AddRoleMemberStep::Assign },
                    ..self
                },
            (AddRoleMemberStep::Assign, AddRoleMemberEvent::RoleAssigned(ok)) =>
                if !ok {
                    AddRoleMemberFlow { step: AddRoleMemberStep::Done(Err(ServiceError::IdpError)), ..self }
                } else if self.assigned + 1 < self.providers.len() {
                    AddRoleMemberFlow { assigned: (self.assigned + 1) as usize, ..self }
                } else {
                    AddRoleMemberFlow {
                        assigned: (self.assigned + 1) as usize,
                        step: AddRoleMemberStep::WriteMembership,
                        ..self
                    }
                },
            (AddRoleMemberStep::WriteMembership, AddRoleMemberEvent::MembershipWritten(Err(k))) =>
                AddRoleMemberFlow { step: AddRoleMemberStep::Done(Err(db_error_to_service(k))), ..self },
            (AddRoleMemberStep::WriteMembership, AddRoleMemberEvent::MembershipWritten(Ok(()))) =>
                AddRoleMemberFlow { step: AddRoleMemberStep::Audit, ..self },
            (AddRoleMemberStep::Audit, AddRoleMemberEvent::Audited) =>
                AddRoleMemberFlow { step: AddRoleMemberStep::Done(Ok(())), ..self },
            (step, _) => AddRoleMemberFlow { step, ..self },
        }
    }

    /// Feeds the outcome of the current operation to the flow.
    pub fn advance(self, e: AddRoleMemberEvent) -> (r: AddRoleMemberFlow)
        requires
            self.wf(),
        ensures
            r == self.next(e),
            r.wf(),
    {
        let AddRoleMemberFlow { user_id, role_name, providers, assigned, step } = self;
        match (step, e) {
            (AddRoleMemberStep::FindProviders, AddRoleMemberEvent::ProvidersFound(None)) =>
                AddRoleMemberFlow { user_id, role_name, providers, assigned, step: AddRoleMemberStep::Done(Err(ServiceError::DatabaseError)) },
            (AddRoleMemberStep::FindProviders, AddRoleMemberEvent::ProvidersFound(Some(ps))) => {
                let step = if ps.len() == 0 { AddRoleMemberStep::WriteMembership } else { AddRoleMemberStep::Assign };
                AddRoleMemberFlow { user_id, role_name, providers: ps, assigned: 0, step }
            },
            (AddRoleMemberStep::Assign, AddRoleMemberEvent::RoleAssigned(ok)) =>
                if !ok {
                    AddRoleMemberFlow { user_id, role_name, providers, assigned, step: AddRoleMemberStep::Done(Err(ServiceError::IdpError)) }
                } else if assigned + 1 < providers.len() {
                    AddRoleMemberFlow { user_id, role_name, providers, assigned: assigned + 1, step: AddRoleMemberStep::Assign }
                } else {
                    AddRoleMemberFlow { user_id, role_name, providers, assigned: assigned + 1, step: AddRoleMemberStep::WriteMembership }
                },
            (AddRoleMemberStep::WriteMembership, AddRoleMemberEvent::MembershipWritten(Err(k))) =>
                AddRoleMemberFlow { user_id, role_name, providers, assigned, step: AddRoleMemberStep::Done(Err(ServiceError::from_db(k))) },
            (AddRoleMemberStep::WriteMembership, AddRoleMemberEvent::MembershipWritten(Ok(()))) =>
                AddRoleMemberFlow { user_id, role_name, providers, assigned, step: AddRoleMemberStep::Audit },
            (AddRoleMemberStep::Audit, AddRoleMemberEvent::Audited) =>
                AddRoleMemberFlow { user_id, role_name, providers, assigned, step: AddRoleMemberStep::Done(Ok(())) },
            (step, _) => AddRoleMemberFlow { user_id, role_name, providers, assigned, step },
        }
    }

    /// The flow after each of `events` in turn.
    pub open spec fn run(self, events: Seq<AddRoleMemberEvent>) -> AddRoleMemberFlow
        decreases events.len(),
    {
        if events.len() == 0 {
            self
        } else {
            self.next(events[0]).run(events.drop_first())
        }
    }
}

impl AddRoleMemberFlow {
    /// The record that the audit step appends: `role_member.assign` on the
    /// membership `user_id:role_name`, by `actor`.
    pub fn audit_record(&self, actor: Option<u128>) -> (e: NewAuditLogEntry)
        ensures
            e.actor_user_id == actor,
            e.action@ == "role_member.assign"@,
            e.entity_type@ == "role_member"@,
            e.entity_id@ == id_text(self.user_id) + ":"@ + self.role_name@,
    {
        audit_entry(actor, AuditAction::RoleMemberAssign, role_member_entity(self.user_id, self.role_name.as_str()))
    }
}

proof fn lemma_add_role_member_next_wf(f: AddRoleMemberFlow, e: AddRoleMemberEvent)
    requires
        f.wf(),
    ensures
        f.next(e).wf(),
{
}

proof fn lemma_add_role_member_run_wf(f: AddRoleMemberFlow, events: Seq<AddRoleMemberEvent>)
    requires
        f.wf(),
    ensures
        f.run(events).wf(),
    decreases events.len(),
{
    if events.len() > 0 {
        lemma_add_role_member_next_wf(f, events[0]);
        lemma_add_role_member_run_wf(f.next(events[0]), events.drop_first());
    }
}

/// From any state that `start` and `advance` can produce, whatever outcomes
/// come back, the membership row is written, the audit
/// record appended and success reported only after the role has been given
/// to every linked identity-provider account.
pub proof fn law_membership_written_only_after_idp_sync(
    f: AddRoleMemberFlow,
    events: Seq<AddRoleMemberEvent>,
)
    requires
        f.wf(),
    ensures
        ({
            let g = f.run(events);
            (g.step is WriteMembership || g.step is Audit || g.step == AddRoleMemberStep::Done(Ok(())))
                ==> g.assigned == g.providers.len()
        }),
{
    lemma_add_role_member_run_wf(f, events);
}

proof fn lemma_add_role_member_done_stays(f: AddRoleMemberFlow, events: Seq<AddRoleMemberEvent>)
    requires
        f.step is Done,
    ensures
        f.run(events) == f,
    decreases events.len(),
{
    if events.len() > 0 {
        assert(f.next(events[0]) == f);
        lemma_add_role_member_done_stays(f.next(events[0]), events.drop_first());
    }
}

/// Once the identity provider refuses the role for one account, the grant
/// ends with `IdpError` and no later outcome leads to a database write or an
/// audit record.
pub proof fn law_idp_failure_ends_grant(f: AddRoleMemberFlow, events: Seq<AddRoleMemberEvent>)
    requires
        f.step is Assign,
    ensures
        f.next(AddRoleMemberEvent::RoleAssigned(false)).run(events).step
            == AddRoleMemberStep::Done(Err(ServiceError::IdpError)),
{
    lemma_add_role_member_done_stays(f.next(AddRoleMemberEvent::RoleAssigned(false)), events);
}

/// Once the last linked account has accepted the role, the membership row is
/// written next, however many accounts there are; and success is reported
/// only from the audit step, which only the membership write leads to.
pub proof fn law_grant_writes_membership_then_audits(f: AddRoleMemberFlow, e: AddRoleMemberEvent)
    requires
        f.wf(),
    ensures
        f.step is Assign && f.assigned + 1 == f.providers.len() ==> ({
            let g = f.next(AddRoleMemberEvent::RoleAssigned(true));
            &&& g.step is WriteMembership
            &&& g.assigned == g.providers.len()
            &&& g.providers == f.providers
        }),
        f.step is Assign && f.assigned + 1 < f.providers.len() ==> ({
            let g = f.next(AddRoleMemberEvent::RoleAssigned(true));
            &&& g.step is Assign
            &&& g.assigned == f.assigned + 1
            &&& g.providers == f.providers
        }),
        f.next(e).step == AddRoleMemberStep::Done(Ok(())) ==> (f.step is Audit && e is Audited) || f.step
            == AddRoleMemberStep::Done(Ok(())),
        f.next(e).step is Audit ==> (f.step is WriteMembership && (e matches AddRoleMemberEvent::MembershipWritten(
            Ok(_),
        ))) || f.step is Audit,
        f.next(e).step is WriteMembership ==> f.step is WriteMembership || (f.step is Assign && e
            == AddRoleMemberEvent::RoleAssigned(true)) || (f.step is FindProviders && e is ProvidersFound),
{
}

/// Granting starts with the first linked account found (or, with none, with
/// the membership row); a failed lookup is a database error, a refused
/// membership write is reported as the database's error, and once written
/// and audited the grant succeeds.
pub proof fn law_grant_steps(f: AddRoleMemberFlow, ps: Vec<String>, k: DbErrorKind)
    ensures
        f.step is FindProviders && ps.len() > 0 ==> ({
            let g = f.next(AddRoleMemberEvent::ProvidersFound(Some(ps)));
            &&& g.step is Assign
            &&& g.assigned == 0
            &&& g.providers == ps
        }),
        f.step is FindProviders && ps.len() == 0 ==> ({
            let g = f.next(AddRoleMemberEvent::ProvidersFound(Some(ps)));
            g.step is WriteMembership && g.providers == ps
        }),
        f.step is FindProviders ==> f.next(AddRoleMemberEvent::ProvidersFound(None)).step
            == AddRoleMemberStep::Done(Err(ServiceError::DatabaseError)),
        f.step is WriteMembership ==> {
            &&& f.next(AddRoleMemberEvent::MembershipWritten(Err(k))).step
                == AddRoleMemberStep::Done(Err(db_error_to_service(k)))
            &&& f.next(AddRoleMemberEvent::MembershipWritten(Ok(()))).step is Audit
        },
        f.step is Audit ==> f.next(AddRoleMemberEvent::Audited).step == AddRoleMemberStep::Done(Ok(())),
{
}


// ---------------------------------------------------------------------------
// Withdrawing a role
// ---------------------------------------------------------------------------

/// Where withdrawing a role membership stands; each step but `Done` names
/// the operation that is to be performed next.
#[derive(Debug)]
pub enum DeleteRoleMembershipStep {
    /// Delete the membership row.
    DeleteMembership,
    /// Look up the identity-provider accounts linked to the member.
    FindProviders,
    /// Take the role away from the provider account `providers[removed]`.
    Remove,
    /// Append the `role_member.delete` audit record.
    Audit,
    Done(Result<(), ServiceError>),
}

#[derive(Debug)]
pub enum DeleteRoleMembershipEvent {
    MembershipDeleted(Result<(), DbErrorKind>),
    /// The linked provider accounts, or `None` where the lookup failed.
    ProvidersFound(Option<Vec<String>>),
    /// Whether the identity provider took the role away; a refusal is only
    /// logged.
    RoleRemoved(bool),
    Audited,
}

/// Withdrawing `role_name` from the member `user_id`: the database first,
/// then, as far as it goes, every linked identity-provider account.
#[derive(Debug)]
pub struct DeleteRoleMembershipFlow {
    pub user_id: u128,
    pub role_name: String,
    pub providers: Vec<String>,
    /// How many of `providers` have been dealt with.
    pub removed: usize,
    pub step: DeleteRoleMembershipStep,
}

impl DeleteRoleMembershipFlow {
    pub fn start(user_id: u128, role_name: String) -> (f: DeleteRoleMembershipFlow)
        ensures
            f.user_id == user_id,
            f.role_name == role_name,
            f.step is DeleteMembership,
            f.wf(),
    {
        DeleteRoleMembershipFlow {
            user_id,
            role_name,
            providers: Vec::new(),
            removed: 0,
            step: DeleteRoleMembershipStep::DeleteMembership,
        }
    }

    /// The state invariant: an account is due only while some remain, and
    /// the audit record is written only once every account has been dealt
    /// with.
    pub open spec fn wf(self) -> bool {
        &&& self.removed <= self.providers.len()
        &&& self.step is Remove ==> self.removed < self.providers.len()
        &&& self.step is Audit ==> self.removed == self.providers.len()
    }

    pub open spec fn next(self, e: DeleteRoleMembershipEvent) -> DeleteRoleMembershipFlow {
        match (self.step, e) {
            (DeleteRoleMembershipStep::DeleteMembership, DeleteRoleMembershipEvent::MembershipDeleted(Err(k))) =>
                DeleteRoleMembershipFlow { step: DeleteRoleMembershipStep::Done(Err(db_error_to_service(k))), ..self },
            (DeleteRoleMembershipStep::DeleteMembership, DeleteRoleMembershipEvent::MembershipDeleted(Ok(()))) =>
                DeleteRoleMembershipFlow { step: DeleteRoleMembershipStep::FindProviders, ..self },
            (DeleteRoleMembershipStep::FindProviders, DeleteRoleMembershipEvent::ProvidersFound(None)) =>
                DeleteRoleMembershipFlow { step: DeleteRoleMembershipStep::Done(Err(ServiceError::DatabaseError)), ..self },
            (DeleteRoleMembershipStep::FindProviders, DeleteRoleMembershipEvent::ProvidersFound(Some(ps))) =>
                DeleteRoleMembershipFlow {
                    providers: ps,
                    removed: 0,
                    step: if ps.len() == 0 { DeleteRoleMembershipStep::Audit } else { DeleteRoleMembershipStep::Remove },
                    ..self
                },
            (DeleteRoleMembershipStep::Remove, DeleteRoleMembershipEvent::RoleRemoved(_)) =>
                if self.removed + 1 < self.providers.len() {
                    DeleteRoleMembershipFlow { removed: (self.removed + 1) as usize, ..self }
                } else {
                    DeleteRoleMembershipFlow {
                        removed: (self.removed + 1) as usize,
                        step: DeleteRoleMembershipStep::Audit,
                        ..self
                    }
                },
            (DeleteRoleMembershipStep::Audit, DeleteRoleMembershipEvent::Audited) =>
                DeleteRoleMembershipFlow { step: DeleteRoleMembershipStep::Done(Ok(())), ..self },
            (step, _) => DeleteRoleMembershipFlow { step, ..self },
        }
    }

    pub fn advance(self, e: DeleteRoleMembershipEvent) -> (r: DeleteRoleMembershipFlow)
        requires
            self.wf(),
        ensures
            r == self.next(e),
            r.wf(),
    {
        let DeleteRoleMembershipFlow { user_id, role_name, providers, removed, step } = self;
        match (step, e) {
            (DeleteRoleMembershipStep::DeleteMembership, DeleteRoleMembershipEvent::MembershipDeleted(Err(k))) =>
                DeleteRoleMembershipFlow { user_id, role_name, providers, removed, step: DeleteRoleMembershipStep::Done(Err(ServiceError::from_db(k))) },
            (DeleteRoleMembershipStep::DeleteMembership, DeleteRoleMembershipEvent::MembershipDeleted(Ok(()))) =>
                DeleteRoleMembershipFlow { user_id, role_name, providers, removed, step: DeleteRoleMembershipStep::FindProviders },
            (DeleteRoleMembershipStep::FindProviders, DeleteRoleMembershipEvent::ProvidersFound(None)) =>
                DeleteRoleMembershipFlow { user_id, role_name, providers, removed, step: DeleteRoleMembershipStep::Done(Err(ServiceError::DatabaseError)) },
            (DeleteRoleMembershipStep::FindProviders, DeleteRoleMembershipEvent::ProvidersFound(Some(ps))) => {
                let step = if ps.len() == 0 { DeleteRoleMembershipStep::Audit } else { DeleteRoleMembershipStep::Remove };
                DeleteRoleMembershipFlow { user_id, role_name, providers: ps, removed: 0, step }
            },
            (DeleteRoleMembershipStep::Remove, DeleteRoleMembershipEvent::RoleRemoved(_)) =>
                if removed + 1 < providers.len() {
                    DeleteRoleMembershipFlow { user_id, role_name, providers, removed: removed + 1, step: DeleteRoleMembershipStep::Remove }
                } else {
                    DeleteRoleMembershipFlow { user_id, role_name, providers, removed: removed + 1, step: DeleteRoleMembershipStep::Audit }
                },
            (DeleteRoleMembershipStep::Audit, DeleteRoleMembershipEvent::Audited) =>
                DeleteRoleMembershipFlow { user_id, role_name, providers, removed, step: DeleteRoleMembershipStep::Done(Ok(())) },
            (step, _) => DeleteRoleMembershipFlow { user_id, role_name, providers, removed, step },
        }
    }
}

impl DeleteRoleMembershipFlow {
    /// The record that the audit step appends: `role_member.delete` on the
    /// membership `user_id:role_name`, by `actor`.
    pub fn audit_record(&self, actor: Option<u128>) -> (e: NewAuditLogEntry)
        ensures
            e.actor_user_id == actor,
            e.action@ == "role_member.delete"@,
            e.entity_type@ == "role_member"@,
            e.entity_id@ == id_text(self.user_id) + ":"@ + self.role_name@,
    {
        audit_entry(actor, AuditAction::RoleMemberDelete, role_member_entity(self.user_id, self.role_name.as_str()))
    }
}

/// Withdrawing a role from the identity provider is best effort: whether an
/// account's role removal succeeded or failed, the withdrawal goes on in
/// the same way.
pub proof fn law_idp_removal_is_best_effort(f: DeleteRoleMembershipFlow)
    ensures
        f.next(DeleteRoleMembershipEvent::RoleRemoved(true))
            == f.next(DeleteRoleMembershipEvent::RoleRemoved(false)),
{
}

/// The membership row is deleted before any identity-provider account is
/// touched: where the database refuses the deletion, the withdrawal ends
/// with the database's error and no provider account is looked up.
pub proof fn law_membership_deleted_before_idp(f: DeleteRoleMembershipFlow, k: DbErrorKind)
    requires
        f.step is DeleteMembership,
    ensures
        f.next(DeleteRoleMembershipEvent::MembershipDeleted(Err(k))).step
            == DeleteRoleMembershipStep::Done(Err(db_error_to_service(k))),
        f.next(DeleteRoleMembershipEvent::MembershipDeleted(Ok(()))).step is FindProviders,
{
}

/// Every linked account that the lookup finds is asked to give up the role
/// before the audit record is written: a non-empty list of accounts leads to
/// the first of them, each answer moves on by exactly one account, and the
/// audit step is reached only once the last account has been dealt with (or
/// none was found).
pub proof fn law_withdrawal_visits_every_account(
    f: DeleteRoleMembershipFlow,
    ps: Vec<String>,
    removed_ok: bool,
    e: DeleteRoleMembershipEvent,
)
    requires
        f.wf(),
    ensures
        f.step is FindProviders && ps.len() > 0 ==> ({
            let g = f.next(DeleteRoleMembershipEvent::ProvidersFound(Some(ps)));
            &&& g.step is Remove
            &&& g.removed == 0
            &&& g.providers == ps
        }),
        f.step is Remove ==> ({
            let g = f.next(DeleteRoleMembershipEvent::RoleRemoved(removed_ok));
            &&& g.removed == f.removed + 1
            &&& g.providers == f.providers
            &&& (g.step is Audit <==> f.removed + 1 == f.providers.len())
            &&& (!(g.step is Audit) ==> g.step is Remove)
        }),
        f.next(e).step is Audit ==> f.step is Audit || (f.step is Remove && e is RoleRemoved && f.removed + 1
            == f.providers.len()) || (f.step is FindProviders && (e matches DeleteRoleMembershipEvent::ProvidersFound(
            Some(qs),
        ) && qs.len() == 0)),
{
}

/// A failed account lookup after the deletion is a database error, and once
/// audited the withdrawal succeeds.
pub proof fn law_withdrawal_ends(f: DeleteRoleMembershipFlow)
    ensures
        f.step is FindProviders ==> f.next(DeleteRoleMembershipEvent::ProvidersFound(None)).step
            == DeleteRoleMembershipStep::Done(Err(ServiceError::DatabaseError)),
        f.step is Audit ==> f.next(DeleteRoleMembershipEvent::Audited).step == DeleteRoleMembershipStep::Done(Ok(())),
{
}

// ---------------------------------------------------------------------------
// Granting roles in bulk
// ---------------------------------------------------------------------------

/// Where granting several roles to several members stands.
#[derive(Debug)]
pub enum AddManyRoleMembersStep {
    /// Grant `role_names[role]` to `user_ids[user]`.
    Add,
    Done(Result<(), ServiceError>),
}

/// Granting every role of `role_names` to every member of `user_ids`, role
/// by role and, within a role, member by member, stopping at the first
/// grant that fails.
#[derive(Debug)]
pub struct AddManyRoleMembersFlow {
    pub role_names: Vec<String>,
    pub user_ids: Vec<u128>,
    pub role: usize,
    pub user: usize,
    pub step: AddManyRoleMembersStep,
}

impl AddManyRoleMembersFlow {
    pub open spec fn wf(self) -> bool {
        self.step is Add ==> self.role < self.role_names.len() && self.user < self.user_ids.len()
    }

    /// The position of the current grant in the role-major order of all
    /// grants.
    pub open spec fn position(self) -> int {
        self.role * self.user_ids.len() + self.user
    }

    pub fn start(role_names: Vec<String>, user_ids: Vec<u128>) -> (f: AddManyRoleMembersFlow)
        ensures
            f.role_names == role_names,
            f.user_ids == user_ids,
            f.role == 0,
            f.user == 0,
            (role_names.len() == 0 || user_ids.len() == 0) ==> f.step == AddManyRoleMembersStep::Done(Ok(())),
            (role_names.len() > 0 && user_ids.len() > 0) ==> f.step is Add,
            f.wf(),
    {
        let step = if role_names.len() == 0 || user_ids.len() == 0 {
            AddManyRoleMembersStep::Done(Ok(()))
        } else {
            AddManyRoleMembersStep::Add
        };
        AddManyRoleMembersFlow { role_names, user_ids, role: 0, user: 0, step }
    }

    /// After the grant of the current pair came back with `r`.
    pub open spec fn next(self, r: Result<(), ServiceError>) -> AddManyRoleMembersFlow {
        match self.step {
            AddManyRoleMembersStep::Add => match r {
                Err(e) => AddManyRoleMembersFlow { step: AddManyRoleMembersStep::Done(Err(e)), ..self },
                Ok(()) => if self.user + 1 < self.user_ids.len() {
                    AddManyRoleMembersFlow { user: (self.user + 1) as usize, ..self }
                } else if self.role + 1 < self.role_names.len() {
                    AddManyRoleMembersFlow { role: (self.role + 1) as usize, user: 0, ..self }
                } else {
                    AddManyRoleMembersFlow { step: AddManyRoleMembersStep::Done(Ok(())), ..self }
                },
            },
            AddManyRoleMembersStep::Done(d) => AddManyRoleMembersFlow { step: AddManyRoleMembersStep::Done(d), ..self },
        }
    }

    pub fn advance(self, r: Result<(), ServiceError>) -> (g: AddManyRoleMembersFlow)
        requires
            self.wf(),
        ensures
            g == self.next(r),
            g.wf(),
    {
        let AddManyRoleMembersFlow { role_names, user_ids, role, user, step } = self;
        match step {
            AddManyRoleMembersStep::Add => match r {
                Err(e) => AddManyRoleMembersFlow { role_names, user_ids, role, user, step: AddManyRoleMembersStep::Done(Err(e)) },
                Ok(()) => if user + 1 < user_ids.len() {
                    AddManyRoleMembersFlow { role_names, user_ids, role, user: user + 1, step: AddManyRoleMembersStep::Add }
                } else if role + 1 < role_names.len() {
                    AddManyRoleMembersFlow { role_names, user_ids, role: role + 1, user: 0, step: AddManyRoleMembersStep::Add }
                } else {
                    AddManyRoleMembersFlow { role_names, user_ids, role, user, step: AddManyRoleMembersStep::Done(Ok(())) }
                },
            },
            AddManyRoleMembersStep::Done(d) =>
                AddManyRoleMembersFlow { role_names, user_ids, role, user, step: AddManyRoleMembersStep::Done(d) },
        }
    }
}

/// Grants go in role-major order: each successful grant that is not the
/// last moves to the very next pair, and the bulk grant succeeds only after
/// the grant of the last role to the last member; a failed grant ends it
/// with that grant's error.
pub proof fn law_bulk_grant_order(f: AddManyRoleMembersFlow, r: Result<(), ServiceError>)
    requires
        f.wf(),
        f.step is Add,
    ensures
        r is Err ==> f.next(r).step == AddManyRoleMembersStep::Done(r),
        r is Ok && f.next(r).step is Add ==> f.next(r).position() == f.position() + 1,
        r is Ok && f.next(r).step is Done ==> f.role + 1 == f.role_names.len() && f.user + 1 == f.user_ids.len(),
{
    if r is Ok && f.next(r).step is Add {
        let n = f.user_ids.len() as int;
        if f.user + 1 < n {
        } else {
            assert((f.role + 1) * n + 0 == f.role * n + n) by (nonlinear_arith);
        }
    }
}


// ---------------------------------------------------------------------------
// Creating and deleting roles
// ---------------------------------------------------------------------------

/// Where creating a role stands.
#[derive(Debug)]
pub enum CreateRoleStep<T> {
    /// Create the role in the identity provider.
    CreateInIdp,
    /// Insert the role row.
    Write,
    /// Append the `role.create` audit record for the created role `T`.
    Audit(T),
    Done(Result<T, ServiceError>),
}

#[derive(Debug)]
pub enum CreateRoleEvent<T> {
    IdpCreated(bool),
    Written(Result<T, DbErrorKind>),
    Audited,
}

/// Creating a role: in the identity provider first, and only where that
/// succeeded in the database.
#[derive(Debug)]
pub struct CreateRoleFlow<T> {
    pub step: CreateRoleStep<T>,
}

impl<T> CreateRoleFlow<T> {
    pub fn start() -> (f: CreateRoleFlow<T>)
        ensures
            f.step is CreateInIdp,
    {
        CreateRoleFlow { step: CreateRoleStep::CreateInIdp }
    }

    pub open spec fn next(self, e: CreateRoleEvent<T>) -> CreateRoleFlow<T> {
        match (self.step, e) {
            (CreateRoleStep::CreateInIdp, CreateRoleEvent::IdpCreated(ok)) => if ok {
                CreateRoleFlow { step: CreateRoleStep::Write }
            } else {
                CreateRoleFlow { step: CreateRoleStep::Done(Err(ServiceError::IdpError)) }
            },
            (CreateRoleStep::Write, CreateRoleEvent::Written(Ok(v))) =>
                CreateRoleFlow { step: CreateRoleStep::Audit(v) },
            (CreateRoleStep::Write, CreateRoleEvent::Written(Err(k))) =>
                CreateRoleFlow { step: CreateRoleStep::Done(Err(db_error_to_service(k))) },
            (CreateRoleStep::Audit(v), CreateRoleEvent::Audited) =>
                CreateRoleFlow { step: CreateRoleStep::Done(Ok(v)) },
            (step, _) => CreateRoleFlow { step },
        }
    }

    pub fn advance(self, e: CreateRoleEvent<T>) -> (r: CreateRoleFlow<T>)
        ensures
            r == self.next(e),
    {
        match (self.step, e) {
            (CreateRoleStep::CreateInIdp, CreateRoleEvent::IdpCreated(ok)) => if ok {
                CreateRoleFlow { step: CreateRoleStep::Write }
            } else {
                CreateRoleFlow { step: CreateRoleStep::Done(Err(ServiceError::IdpError)) }
            },
            (CreateRoleStep::Write, CreateRoleEvent::Written(Ok(v))) =>
                CreateRoleFlow { step: CreateRoleStep::Audit(v) },
            (CreateRoleStep::Write, CreateRoleEvent::Written(Err(k))) =>
                CreateRoleFlow { step: CreateRoleStep::Done(Err(ServiceError::from_db(k))) },
            (CreateRoleStep::Audit(v), CreateRoleEvent::Audited) =>
                CreateRoleFlow { step: CreateRoleStep::Done(Ok(v)) },
            (step, _) => CreateRoleFlow { step },
        }
    }
}

/// Where deleting a role stands.
#[derive(Debug)]
pub enum DeleteRoleStep {
    /// Delete the role row.
    Write,
    /// Delete the role in the identity provider; a failure is only logged.
    DeleteInIdp,
    /// Append the `role.delete` audit record.
    Audit,
    Done(Result<(), ServiceError>),
}

#[derive(Debug)]
pub enum DeleteRoleEvent {
    Written(Result<(), DbErrorKind>),
    IdpDeleted(bool),
    Audited,
}

/// Deleting a role: in the database first, then, as far as it goes, in the
/// identity provider.
#[derive(Debug)]
pub struct DeleteRoleFlow {
    pub step: DeleteRoleStep,
}

impl DeleteRoleFlow {
    pub fn start() -> (f: DeleteRoleFlow)
        ensures
            f.step is Write,
    {
        DeleteRoleFlow { step: DeleteRoleStep::Write }
    }

    pub open spec fn next(self, e: DeleteRoleEvent) -> DeleteRoleFlow {
        match (self.step, e) {
            (DeleteRoleStep::Write, DeleteRoleEvent::Written(Ok(()))) => DeleteRoleFlow { step: DeleteRoleStep::DeleteInIdp },
            (DeleteRoleStep::Write, DeleteRoleEvent::Written(Err(k))) =>
                DeleteRoleFlow { step: DeleteRoleStep::Done(Err(db_error_to_service(k))) },
            (DeleteRoleStep::DeleteInIdp, DeleteRoleEvent::IdpDeleted(_)) => DeleteRoleFlow { step: DeleteRoleStep::Audit },
            (DeleteRoleStep::Audit, DeleteRoleEvent::Audited) => DeleteRoleFlow { step: DeleteRoleStep::Done(Ok(())) },
            (step, _) => DeleteRoleFlow { step },
        }
    }

    pub fn advance(self, e: DeleteRoleEvent) -> (r: DeleteRoleFlow)
        ensures
            r == self.next(e),
    {
        match (self.step, e) {
            (DeleteRoleStep::Write, DeleteRoleEvent::Written(Ok(()))) => DeleteRoleFlow { step: DeleteRoleStep::DeleteInIdp },
            (DeleteRoleStep::Write, DeleteRoleEvent::Written(Err(k))) =>
                DeleteRoleFlow { step: DeleteRoleStep::Done(Err(ServiceError::from_db(k))) },
            (DeleteRoleStep::DeleteInIdp, DeleteRoleEvent::IdpDeleted(_)) => DeleteRoleFlow { step: DeleteRoleStep::Audit },
            (DeleteRoleStep::Audit, DeleteRoleEvent::Audited) => DeleteRoleFlow { step: DeleteRoleStep::Done(Ok(())) },
            (step, _) => DeleteRoleFlow { step },
        }
    }
}

/// A role that the identity provider refused to create is never written to
/// the database; deleting a role never fails for the identity provider's
/// sake.
pub proof fn law_role_idp_ordering<T>(c: CreateRoleFlow<T>, d: DeleteRoleFlow)
    requires
        c.step is CreateInIdp,
        d.step is DeleteInIdp,
    ensures
        c.next(CreateRoleEvent::IdpCreated(false)).step == CreateRoleStep::<T>::Done(Err(ServiceError::IdpError)),
        d.next(DeleteRoleEvent::IdpDeleted(false)) == d.next(DeleteRoleEvent::IdpDeleted(true)),
{
}

/// A role is written to the database only after the identity provider
/// created it, and the role that the database gave back is audited and
/// handed out; a refused write is reported as the database's error.
pub proof fn law_role_created_then_written<T>(c: CreateRoleFlow<T>, e: CreateRoleEvent<T>, v: T, k: DbErrorKind)
    ensures
        c.step is CreateInIdp ==> c.next(CreateRoleEvent::IdpCreated(true)).step is Write,
        c.step is Write ==> {
            &&& c.next(CreateRoleEvent::Written(Ok(v))).step == CreateRoleStep::Audit(v)
            &&& c.next(CreateRoleEvent::Written(Err(k))).step == CreateRoleStep::<T>::Done(Err(db_error_to_service(k)))
        },
        c.step == CreateRoleStep::Audit(v) ==> c.next(CreateRoleEvent::Audited).step == CreateRoleStep::<T>::Done(
            Ok(v),
        ),
        c.next(e).step is Write ==> c.step is Write || (c.step is CreateInIdp && e == CreateRoleEvent::<T>::IdpCreated(
            true,
        )),
{
}

/// A role is deleted from the identity provider only after its row was
/// deleted; a refused deletion is reported as the database's error, and
/// once audited the deletion succeeds.
pub proof fn law_role_deleted_then_idp(d: DeleteRoleFlow, e: DeleteRoleEvent, k: DbErrorKind)
    ensures
        d.step is Write ==> {
            &&& d.next(DeleteRoleEvent::Written(Ok(()))).step is DeleteInIdp
            &&& d.next(DeleteRoleEvent::Written(Err(k))).step == DeleteRoleStep::Done(Err(db_error_to_service(k)))
        },
        d.step is DeleteInIdp ==> d.next(DeleteRoleEvent::IdpDeleted(true)).step is Audit,
        d.step is Audit ==> d.next(DeleteRoleEvent::Audited).step == DeleteRoleStep::Done(Ok(())),
        d.next(e).step is DeleteInIdp ==> d.step is DeleteInIdp || (d.step is Write && (e matches DeleteRoleEvent::Written(
            Ok(_),
        ))),
{
}

} // verus!
