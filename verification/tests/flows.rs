use membership_registry::application::{
    application_audit_record, is_undecided, new_application_status, ApplicationFacts, ApplicationStatus, CreateApplicationEvent,
    CreateApplicationFlow, CreateApplicationStep, UpdateApplicationStatusEvent, UpdateApplicationStatusFlow,
    UpdateApplicationStatusStep,
};
use membership_registry::audit::{AuditAction, AuditedWrite, AuditedWriteEvent, AuditedWriteStep};
use membership_registry::error::{DbErrorKind, ServiceError};
use membership_registry::model::{ApplicationTargetableRole, NewApplication};
use membership_registry::role_membership::{
    AddManyRoleMembersFlow, AddManyRoleMembersStep, AddRoleMemberEvent, AddRoleMemberFlow, AddRoleMemberStep,
    CreateRoleEvent, CreateRoleFlow, CreateRoleStep, DeleteRoleEvent, DeleteRoleFlow, DeleteRoleMembershipEvent,
    DeleteRoleMembershipFlow, DeleteRoleMembershipStep, DeleteRoleStep,
};

fn date(y: i32, m: u32, d: u32) -> chrono::NaiveDate {
    chrono::NaiveDate::from_ymd_opt(y, m, d).unwrap()
}

fn providers(ids: &[&str]) -> Option<Vec<String>> {
    Some(ids.iter().map(|s| s.to_string()).collect())
}

#[test]
fn add_role_member_syncs_every_provider_before_writing() {
    let f = AddRoleMemberFlow::start(7, "prodeko-external-member".to_string());
    assert!(matches!(f.step, AddRoleMemberStep::FindProviders));
    let f = f.advance(AddRoleMemberEvent::ProvidersFound(providers(&["kc-1", "kc-2"])));
    assert!(matches!(f.step, AddRoleMemberStep::Assign));
    assert_eq!(f.providers[f.assigned], "kc-1");
    let f = f.advance(AddRoleMemberEvent::RoleAssigned(true));
    assert!(matches!(f.step, AddRoleMemberStep::Assign));
    assert_eq!(f.providers[f.assigned], "kc-2");
    let f = f.advance(AddRoleMemberEvent::RoleAssigned(true));
    assert!(matches!(f.step, AddRoleMemberStep::WriteMembership));
    let f = f.advance(AddRoleMemberEvent::MembershipWritten(Ok(())));
    assert!(matches!(f.step, AddRoleMemberStep::Audit));
    let f = f.advance(AddRoleMemberEvent::Audited);
    assert!(matches!(f.step, AddRoleMemberStep::Done(Ok(()))));
}

#[test]
fn add_role_member_does_not_write_when_idp_refuses() {
    let f = AddRoleMemberFlow::start(7, "prodeko-external-member".to_string());
    let f = f.advance(AddRoleMemberEvent::ProvidersFound(providers(&["kc-1"])));
    let f = f.advance(AddRoleMemberEvent::RoleAssigned(false));
    assert!(matches!(f.step, AddRoleMemberStep::Done(Err(ServiceError::IdpError))));
    // Later outcomes change nothing: no write, no audit.
    let f = f.advance(AddRoleMemberEvent::MembershipWritten(Ok(())));
    let f = f.advance(AddRoleMemberEvent::Audited);
    assert!(matches!(f.step, AddRoleMemberStep::Done(Err(ServiceError::IdpError))));
}

#[test]
fn add_role_member_without_providers_writes_directly() {
    let f = AddRoleMemberFlow::start(7, "r".to_string());
    let f = f.advance(AddRoleMemberEvent::ProvidersFound(Some(vec![])));
    assert!(matches!(f.step, AddRoleMemberStep::WriteMembership));
}

#[test]
fn add_role_member_reports_lookup_and_write_failures() {
    let f = AddRoleMemberFlow::start(7, "r".to_string()).advance(AddRoleMemberEvent::ProvidersFound(None));
    assert!(matches!(f.step, AddRoleMemberStep::Done(Err(ServiceError::DatabaseError))));
    let f = AddRoleMemberFlow::start(7, "r".to_string())
        .advance(AddRoleMemberEvent::ProvidersFound(Some(vec![])))
        .advance(AddRoleMemberEvent::MembershipWritten(Err(DbErrorKind::ConstraintViolation)));
    assert!(matches!(f.step, AddRoleMemberStep::Done(Err(ServiceError::Constraint))));
}

#[test]
fn delete_role_membership_is_best_effort_for_idp_providers() {
    let f = DeleteRoleMembershipFlow::start(7, "prodeko-external-member".to_string());
    assert!(matches!(f.step, DeleteRoleMembershipStep::DeleteMembership));
    let f = f.advance(DeleteRoleMembershipEvent::MembershipDeleted(Ok(())));
    assert!(matches!(f.step, DeleteRoleMembershipStep::FindProviders));
    let f = f.advance(DeleteRoleMembershipEvent::ProvidersFound(providers(&["kc-1", "kc-2"])));
    let f = f.advance(DeleteRoleMembershipEvent::RoleRemoved(false));
    assert!(matches!(f.step, DeleteRoleMembershipStep::Remove));
    let f = f.advance(DeleteRoleMembershipEvent::RoleRemoved(false));
    assert!(matches!(f.step, DeleteRoleMembershipStep::Audit));
    let f = f.advance(DeleteRoleMembershipEvent::Audited);
    assert!(matches!(f.step, DeleteRoleMembershipStep::Done(Ok(()))));
}

#[test]
fn delete_role_membership_stops_when_db_refuses() {
    let f = DeleteRoleMembershipFlow::start(7, "r".to_string())
        .advance(DeleteRoleMembershipEvent::MembershipDeleted(Err(DbErrorKind::Other)));
    assert!(matches!(f.step, DeleteRoleMembershipStep::Done(Err(ServiceError::DatabaseError))));
}

#[test]
fn add_many_role_members_goes_role_by_role() {
    let roles = vec!["a".to_string(), "b".to_string()];
    let users = vec![1u128, 2u128];
    let mut f = AddManyRoleMembersFlow::start(roles, users);
    let mut order = vec![];
    while matches!(f.step, AddManyRoleMembersStep::Add) {
        order.push((f.role_names[f.role].clone(), f.user_ids[f.user]));
        f = f.advance(Ok(()));
    }
    assert_eq!(order, vec![("a".to_string(), 1), ("a".to_string(), 2), ("b".to_string(), 1), ("b".to_string(), 2)]);
    assert!(matches!(f.step, AddManyRoleMembersStep::Done(Ok(()))));
}

#[test]
fn add_many_role_members_stops_at_first_error() {
    let f = AddManyRoleMembersFlow::start(vec!["a".to_string(), "b".to_string()], vec![1, 2]);
    let f = f.advance(Ok(()));
    let f = f.advance(Err(ServiceError::IdpError));
    assert!(matches!(f.step, AddManyRoleMembersStep::Done(Err(ServiceError::IdpError))));
    let empty = AddManyRoleMembersFlow::start(vec![], vec![1]);
    assert!(matches!(empty.step, AddManyRoleMembersStep::Done(Ok(()))));
}

#[test]
fn create_role_needs_idp_first() {
    let f: CreateRoleFlow<String> = CreateRoleFlow::start();
    let refused = f.advance(CreateRoleEvent::IdpCreated(false));
    assert!(matches!(refused.step, CreateRoleStep::Done(Err(ServiceError::IdpError))));
    let f: CreateRoleFlow<String> = CreateRoleFlow::start();
    let f = f.advance(CreateRoleEvent::IdpCreated(true));
    let f = f.advance(CreateRoleEvent::Written(Ok("board".to_string())));
    let f = f.advance(CreateRoleEvent::Audited);
    match f.step {
        CreateRoleStep::Done(Ok(name)) => assert_eq!(name, "board"),
        other => panic!("unexpected {other:?}"),
    }
}

#[test]
fn delete_role_ignores_idp_failure() {
    let f = DeleteRoleFlow::start().advance(DeleteRoleEvent::Written(Ok(())));
    assert!(matches!(f.step, DeleteRoleStep::DeleteInIdp));
    let f = f.advance(DeleteRoleEvent::IdpDeleted(false)).advance(DeleteRoleEvent::Audited);
    assert!(matches!(f.step, DeleteRoleStep::Done(Ok(()))));
    let g = DeleteRoleFlow::start().advance(DeleteRoleEvent::Written(Err(DbErrorKind::RowNotFound)));
    assert!(matches!(g.step, DeleteRoleStep::Done(Err(ServiceError::NotFound))));
}

#[test]
fn audited_write_records_only_success() {
    let w: AuditedWrite<u32> = AuditedWrite::start(AuditAction::MemberCreate);
    let w = w.advance(AuditedWriteEvent::Written(Ok(5)));
    assert!(matches!(w.step, AuditedWriteStep::Audit(5)));
    let w = w.advance(AuditedWriteEvent::Audited);
    assert!(matches!(w.step, AuditedWriteStep::Done(Ok(5))));
    let failed: AuditedWrite<u32> = AuditedWrite::start(AuditAction::MemberDelete);
    let failed = failed.advance(AuditedWriteEvent::Written(Err(DbErrorKind::RowNotFound)));
    assert!(matches!(failed.step, AuditedWriteStep::Done(Err(ServiceError::NotFound))));
}

fn new_application(payment: Option<&str>) -> NewApplication {
    NewApplication {
        user_id: 42,
        role_name: "prodeko-full-member".to_string(),
        valid_until: date(2026, 12, 31),
        stripe_payment_id: payment.map(|s| s.to_string()),
        application_text: Some("Please".to_string()),
        optional_roles: None,
    }
}

fn targetable(active: bool, link: Option<&str>) -> ApplicationTargetableRole {
    ApplicationTargetableRole {
        role_name: "prodeko-full-member".to_string(),
        valid_until: date(2026, 12, 31),
        active,
        optional_roles: None,
        payment_link: link.map(|s| s.to_string()),
    }
}

#[test]
fn application_status_names() {
    for st in [ApplicationStatus::Unpaid, ApplicationStatus::Pending, ApplicationStatus::Approved, ApplicationStatus::Rejected] {
        assert_eq!(ApplicationStatus::parse(st.as_str()), Some(st));
    }
    assert_eq!(ApplicationStatus::Unpaid.as_str(), "unpaid");
    assert_eq!(ApplicationStatus::parse("Approved"), None);
    assert_eq!(ApplicationStatus::parse("done"), None);
}

#[test]
fn new_application_status_rules() {
    assert_eq!(new_application_status(&None, false), Ok(ApplicationStatus::Pending));
    assert_eq!(new_application_status(&Some(targetable(false, None)), false), Err(ServiceError::NotActive));
    assert_eq!(new_application_status(&Some(targetable(true, Some("https://pay"))), false), Ok(ApplicationStatus::Unpaid));
    assert_eq!(new_application_status(&Some(targetable(true, Some("https://pay"))), true), Ok(ApplicationStatus::Pending));
    assert_eq!(new_application_status(&Some(targetable(true, None)), false), Ok(ApplicationStatus::Pending));
}

#[test]
fn create_application_refuses_duplicate() {
    let f: CreateApplicationFlow<u32> = CreateApplicationFlow::start(new_application(None));
    let f = f.advance(CreateApplicationEvent::ExistingFound(true));
    assert!(matches!(f.step, CreateApplicationStep::Done(Err(ServiceError::AlreadyExists))));
}

#[test]
fn create_application_unpaid_then_audited() {
    let f: CreateApplicationFlow<u32> = CreateApplicationFlow::start(new_application(None));
    let f = f.advance(CreateApplicationEvent::ExistingFound(false));
    assert!(matches!(f.step, CreateApplicationStep::FetchTargetable));
    let f = f.advance(CreateApplicationEvent::TargetableFound(Some(targetable(true, Some("https://pay")))));
    assert!(matches!(f.step, CreateApplicationStep::Create));
    assert_eq!(f.status, ApplicationStatus::Unpaid);
    let f = f.advance(CreateApplicationEvent::Created(Ok(11)));
    assert!(matches!(f.step, CreateApplicationStep::Audit(11)));
    let f = f.advance(CreateApplicationEvent::Audited);
    assert!(matches!(f.step, CreateApplicationStep::Done(Ok(11))));
}

#[test]
fn create_application_inactive_role_and_db_error() {
    let f: CreateApplicationFlow<u32> = CreateApplicationFlow::start(new_application(None));
    let f = f.advance(CreateApplicationEvent::ExistingFound(false))
        .advance(CreateApplicationEvent::TargetableFound(Some(targetable(false, None))));
    assert!(matches!(f.step, CreateApplicationStep::Done(Err(ServiceError::NotActive))));
    let g: CreateApplicationFlow<u32> = CreateApplicationFlow::start(new_application(Some("pi_1")));
    let g = g.advance(CreateApplicationEvent::ExistingFound(false))
        .advance(CreateApplicationEvent::TargetableFound(None));
    assert_eq!(g.status, ApplicationStatus::Pending);
    let g = g.advance(CreateApplicationEvent::Created(Err(DbErrorKind::ConstraintViolation)));
    assert!(matches!(g.step, CreateApplicationStep::Done(Err(ServiceError::Constraint))));
}

fn facts(status: Option<&str>) -> ApplicationFacts {
    ApplicationFacts {
        user_id: 42,
        role_name: "prodeko-full-member".to_string(),
        valid_until: date(2026, 12, 31),
        status: status.map(|s| s.to_string()),
    }
}

#[test]
fn update_status_rejects_unknown_status() {
    let f = UpdateApplicationStatusFlow::start(1, "accepted");
    assert!(matches!(f.step, UpdateApplicationStatusStep::Done(Err(ServiceError::InvalidStatus))));
}

#[test]
fn update_status_of_decided_application_is_refused() {
    let f = UpdateApplicationStatusFlow::start(1, "approved");
    assert!(matches!(f.step, UpdateApplicationStatusStep::FetchApplication));
    let f = f.advance(UpdateApplicationStatusEvent::Fetched(Ok(facts(Some("rejected")))));
    assert!(matches!(f.step, UpdateApplicationStatusStep::Done(Err(ServiceError::ApplicationAlreadyProcessed))));
}

#[test]
fn update_status_grants_role_then_audits() {
    let f = UpdateApplicationStatusFlow::start(1, "approved");
    let f = f.advance(UpdateApplicationStatusEvent::Fetched(Ok(facts(Some("unpaid")))));
    assert!(matches!(f.step, UpdateApplicationStatusStep::UpdateStatus));
    let f = f.advance(UpdateApplicationStatusEvent::StatusUpdated(Ok(())));
    assert!(matches!(f.step, UpdateApplicationStatusStep::AddRoleMember));
    let f = f.advance(UpdateApplicationStatusEvent::RoleMemberAdded(Ok(())));
    assert!(matches!(f.step, UpdateApplicationStatusStep::Audit));
    let f = f.advance(UpdateApplicationStatusEvent::Audited);
    assert!(matches!(f.step, UpdateApplicationStatusStep::Done(Ok(()))));
}

#[test]
fn update_status_passes_role_grant_errors_on() {
    let f = UpdateApplicationStatusFlow::start(1, "pending")
        .advance(UpdateApplicationStatusEvent::Fetched(Ok(facts(None))))
        .advance(UpdateApplicationStatusEvent::StatusUpdated(Ok(())))
        .advance(UpdateApplicationStatusEvent::RoleMemberAdded(Err(ServiceError::IdpError)));
    assert!(matches!(f.step, UpdateApplicationStatusStep::Done(Err(ServiceError::IdpError))));
    let g = UpdateApplicationStatusFlow::start(1, "pending")
        .advance(UpdateApplicationStatusEvent::Fetched(Err(DbErrorKind::RowNotFound)));
    assert!(matches!(g.step, UpdateApplicationStatusStep::Done(Err(ServiceError::NotFound))));
}

#[test]
fn undecided_statuses() {
    assert!(is_undecided(&None));
    assert!(is_undecided(&Some("pending".to_string())));
    assert!(is_undecided(&Some("unpaid".to_string())));
    assert!(!is_undecided(&Some("approved".to_string())));
    assert!(!is_undecided(&Some("".to_string())));
}

#[test]
fn role_membership_audit_records() {
    let user: u128 = 0x9707582e_c149_45a7_bae1_4b0f4de4b06f;
    let add = AddRoleMemberFlow::start(user, "prodeko-external-member".to_string());
    let e = add.audit_record(None);
    assert_eq!(e.action, "role_member.assign");
    assert_eq!(e.entity_type, "role_member");
    assert_eq!(e.entity_id, "9707582e-c149-45a7-bae1-4b0f4de4b06f:prodeko-external-member");
    assert_eq!(e.actor_user_id, None);
    let del = DeleteRoleMembershipFlow::start(user, "prodeko-external-member".to_string());
    let e = del.audit_record(Some(7));
    assert_eq!(e.action, "role_member.delete");
    assert_eq!(e.entity_type, "role_member");
    assert!(e.entity_id.contains("prodeko-external-member"));
    assert_eq!(e.actor_user_id, Some(7));
}

#[test]
fn application_audit_records() {
    let e = application_audit_record(Some(1), 0x3e1ab0ea_c56a_457f_961f_13938954bb2b);
    assert_eq!(e.action, "application.create");
    assert_eq!(e.entity_type, "application");
    assert_eq!(e.entity_id, "3e1ab0ea-c56a-457f-961f-13938954bb2b");
    let f = UpdateApplicationStatusFlow::start(0, "approved");
    let e = f.audit_record(None);
    assert_eq!(e.action, "application.update_status");
    assert_eq!(e.entity_id, "00000000-0000-0000-0000-000000000000");
}
