//! What the audit log records, and the rule that a change is recorded only
//! once it has been made.
use vstd::prelude::*;
use crate::error::{db_error_to_service, DbErrorKind, ServiceError};

verus! {

/// The kinds of change that the audit log records.
#[derive(Debug, Clone, Copy, PartialEq, Eq, Structural)]
pub enum AuditAction {
    ApplicationCreate,
    ApplicationUpdateStatus,
    ApplicationDelete,
    ApplicationPaymentReceived,
    TargetableRoleCreate,
    TargetableRoleUpdate,
    TargetableRoleDelete,
    RoleCreate,
    RoleDelete,
    RoleMemberAssign,
    RoleMemberUpdate,
    RoleMemberDelete,
    MemberCreate,
    MemberUpdate,
    MemberDelete,
    MemberDeleteMany,
    MemberExportCsv,
}

impl AuditAction {
    /// The action's name as the audit log stores it.
    pub open spec fn name_spec(self) -> Seq<char> {
        match self {
            AuditAction::ApplicationCreate => "application.create"@,
            AuditAction::ApplicationUpdateStatus => "application.update_status"@,
            AuditAction::ApplicationDelete => "application.delete"@,
            AuditAction::ApplicationPaymentReceived => "application.payment_received"@,
            AuditAction::TargetableRoleCreate => "targetable_role.create"@,
            AuditAction::TargetableRoleUpdate => "targetable_role.update"@,
            AuditAction::TargetableRoleDelete => "targetable_role.delete"@,
            AuditAction::RoleCreate => "role.create"@,
            AuditAction::RoleDelete => "role.delete"@,
            AuditAction::RoleMemberAssign => "role_member.assign"@,
            AuditAction::RoleMemberUpdate => "role_member.update"@,
            AuditAction::RoleMemberDelete => "role_member.delete"@,
            AuditAction::MemberCreate => "member.create"@,
            AuditAction::MemberUpdate => "member.update"@,
            AuditAction::MemberDelete => "member.delete"@,
            AuditAction::MemberDeleteMany => "member.delete_many"@,
            AuditAction::MemberExportCsv => "member.export_csv"@,
        }
    }

    /// The kind of entity that the action concerns.
    pub open spec fn entity_type_spec(self) -> Seq<char> {
        match self {
            AuditAction::ApplicationCreate
            | AuditAction::ApplicationUpdateStatus
            | AuditAction::ApplicationDelete
            | AuditAction::ApplicationPaymentReceived => "application"@,
            AuditAction::TargetableRoleCreate
            | AuditAction::TargetableRoleUpdate
            | AuditAction::TargetableRoleDelete => "targetable_role"@,
            AuditAction::RoleCreate | AuditAction::RoleDelete => "role"@,
            AuditAction::RoleMemberAssign
            | AuditAction::RoleMemberUpdate
            | AuditAction::RoleMemberDelete => "role_member"@,
            AuditAction::MemberCreate
            | AuditAction::MemberUpdate
            | AuditAction::MemberDelete
            | AuditAction::MemberDeleteMany
            | AuditAction::MemberExportCsv => "member"@,
        }
    }

    pub fn name(&self) -> (s: &'static str)
        ensures
            s@ == self.name_spec(),
    {
        match self {
            AuditAction::ApplicationCreate => "application.create",
            AuditAction::ApplicationUpdateStatus => "application.update_status",
            AuditAction::ApplicationDelete => "application.delete",
            AuditAction::ApplicationPaymentReceived => "application.payment_received",
            AuditAction::TargetableRoleCreate => "targetable_role.create",
            AuditAction::TargetableRoleUpdate => "targetable_role.update",
            AuditAction::TargetableRoleDelete => "targetable_role.delete",
            AuditAction::RoleCreate => "role.create",
            AuditAction::RoleDelete => "role.delete",
            AuditAction::RoleMemberAssign => "role_member.assign",
            AuditAction::RoleMemberUpdate => "role_member.update",
            AuditAction::RoleMemberDelete => "role_member.delete",
            AuditAction::MemberCreate => "member.create",
            AuditAction::MemberUpdate => "member.update",
            AuditAction::MemberDelete => "member.delete",
            AuditAction::MemberDeleteMany => "member.delete_many",
            AuditAction::MemberExportCsv => "member.export_csv",
        }
    }

    pub fn entity_type(&self) -> (s: &'static str)
        ensures
            s@ == self.entity_type_spec(),
    {
        match self {
            AuditAction::ApplicationCreate
            | AuditAction::ApplicationUpdateStatus
            | AuditAction::ApplicationDelete
            | AuditAction::ApplicationPaymentReceived => "application",
            AuditAction::TargetableRoleCreate
            | AuditAction::TargetableRoleUpdate
            | AuditAction::TargetableRoleDelete => "targetable_role",
            AuditAction::RoleCreate | AuditAction::RoleDelete => "role",
            AuditAction::RoleMemberAssign
            | AuditAction::RoleMemberUpdate
            | AuditAction::RoleMemberDelete => "role_member",
            AuditAction::MemberCreate
            | AuditAction::MemberUpdate
            | AuditAction::MemberDelete
            | AuditAction::MemberDeleteMany
            | AuditAction::MemberExportCsv => "member",
        }
    }
}

/// Where a change that is recorded in the audit log stands.
#[derive(Debug)]
pub enum AuditedWriteStep<T> {
    /// Make the change in the database.
    Write,
    /// Record the change, which gave `T`, in the audit log.
    Audit(T),
    /// Finished with this result.
    Done(Result<T, ServiceError>),
}

/// The outcome of the operation that the step named.
#[derive(Debug)]
pub enum AuditedWriteEvent<T> {
    Written(Result<T, DbErrorKind>),
    Audited,
}

/// A database change of the kind `action` that is recorded in the audit
/// log once, and only once, it has been made. Writing the audit record never
/// fails the change.
#[derive(Debug)]
pub struct AuditedWrite<T> {
    pub action: AuditAction,
    pub step: AuditedWriteStep<T>,
}

impl<T> AuditedWrite<T> {
    pub fn start(action: AuditAction) -> (w: AuditedWrite<T>)
        ensures
            w.action == action,
            w.step is Write,
    {
        AuditedWrite { action, step: AuditedWriteStep::Write }
    }

    /// What the outcome of the current operation makes of the change. An
    /// outcome that does not belong to the current step changes nothing.
    pub open spec fn next(self, e: AuditedWriteEvent<T>) -> AuditedWrite<T> {
        match (self.step, e) {
            (AuditedWriteStep::Write, AuditedWriteEvent::Written(Ok(v))) =>
                AuditedWrite { action: self.action, step: AuditedWriteStep::Audit(v) },
            (AuditedWriteStep::Write, AuditedWriteEvent::Written(Err(k))) =>
                AuditedWrite { action: self.action, step: AuditedWriteStep::Done(Err(db_error_to_service(k))) },
            (AuditedWriteStep::Audit(v), AuditedWriteEvent::Audited) =>
                AuditedWrite { action: self.action, step: AuditedWriteStep::Done(Ok(v)) },
            (step, _) => AuditedWrite { action: self.action, step },
        }
    }

    pub fn advance(self, e: AuditedWriteEvent<T>) -> (r: AuditedWrite<T>)
        ensures
            r == self.next(e),
    {
        let AuditedWrite { action, step } = self;
        match (step, e) {
            (AuditedWriteStep::Write, AuditedWriteEvent::Written(Ok(v))) =>
                AuditedWrite { action, step: AuditedWriteStep::Audit(v) },
            (AuditedWriteStep::Write, AuditedWriteEvent::Written(Err(k))) =>
                AuditedWrite { action, step: AuditedWriteStep::Done(Err(ServiceError::from_db(k))) },
            (AuditedWriteStep::Audit(v), AuditedWriteEvent::Audited) =>
                AuditedWrite { action, step: AuditedWriteStep::Done(Ok(v)) },
            (step, _) => AuditedWrite { action, step },
        }
    }
}

/// A change that the database refused is reported as the service error of
/// the database error, and is never recorded in the audit log; one that it
/// made is recorded before success is reported.
pub proof fn law_audit_only_after_successful_write<T>(w: AuditedWrite<T>, r: Result<T, DbErrorKind>)
    requires
        w.step is Write,
    ensures
        match r {
            Ok(v) => w.next(AuditedWriteEvent::Written(r)).step == AuditedWriteStep::Audit(v)
                && w.next(AuditedWriteEvent::Written(r)).next(AuditedWriteEvent::Audited).step
                    == AuditedWriteStep::Done(Ok::<T, ServiceError>(v)),
            Err(k) => w.next(AuditedWriteEvent::Written(r)).step
                == AuditedWriteStep::<T>::Done(Err(db_error_to_service(k))),
        },
{
}

} // verus!
