use membership_registry::audit::AuditAction;
use membership_registry::config::{
    mailchimp_datacenter, marketing_setup, non_empty, select_email_backend, EmailBackend,
    EmailConfig, EmailServiceSettings, MarketingSetup, DEFAULT_SMTP_PORT,
};
use membership_registry::error::{auth_provider_error_from_db, db_result, AuthProviderRepoError, DbErrorKind, ServiceError};
use membership_registry::member::{bool_text, csv_field, csv_line, id_entity, role_member_entity, MemberWithRoles};
use membership_registry::model::{MembersWithRolesParams, Role, RolesWithStatsParams};
use membership_registry::query::{
    audit_log_paging, direction, filter_text, member_ids_filter, members_query, already_reminded, record_reminder,
    role_stats_query, RenewalStatus, AUDIT_PAGE_SIZE,
};
use membership_registry::repository::{
    audit_entry, delete_outcome, deleted_any, fallback_locale, role_names_from_json, DeleteOutcome,
    LocaleLookup, LocaleStep,
};

const MEMBER_ID: u128 = 0x3e1ab0ea_c56a_457f_961f_13938954bb2b;

fn some(s: &str) -> Option<String> {
    Some(s.to_string())
}

fn email_config() -> EmailConfig {
    EmailConfig {
        smtp_host: None,
        smtp_port: None,
        smtp_from_email: None,
        sendgrid_api_key: None,
        sendgrid_api_url: None,
        sendgrid_from_email: None,
    }
}

#[test]
fn configured_values_must_not_be_empty() {
    assert_eq!(non_empty(&some("x")), some("x"));
    assert_eq!(non_empty(&some("")), None);
    assert_eq!(non_empty(&None), None);
}

#[test]
fn smtp_takes_precedence_over_sendgrid() {
    let mut c = email_config();
    c.smtp_host = some("localhost");
    c.sendgrid_api_key = some("SG.key");
    match select_email_backend(&c) {
        EmailBackend::Smtp { host, port, from_email } => {
            assert_eq!(host, "localhost");
            assert_eq!(port, DEFAULT_SMTP_PORT);
            assert_eq!(port, 1025);
            assert_eq!(from_email, "noreply@prodeko.org");
        }
        other => panic!("unexpected {:?}", other),
    }
    c.smtp_port = Some(2525);
    c.smtp_from_email = some("board@prodeko.org");
    match select_email_backend(&c) {
        EmailBackend::Smtp { port, from_email, .. } => {
            assert_eq!(port, 2525);
            assert_eq!(from_email, "board@prodeko.org");
        }
        other => panic!("unexpected {:?}", other),
    }
}

#[test]
fn sendgrid_with_defaults_when_smtp_host_is_empty() {
    let mut c = email_config();
    c.smtp_host = some("");
    c.sendgrid_api_key = some("SG.key");
    c.sendgrid_from_email = some("");
    match select_email_backend(&c) {
        EmailBackend::SendGrid { api_key, base_url, from_email } => {
            assert_eq!(api_key, "SG.key");
            assert_eq!(base_url, "https://api.sendgrid.com");
            assert_eq!(from_email, "noreply@prodeko.org");
        }
        other => panic!("unexpected {:?}", other),
    }
}

#[test]
fn no_backend_without_settings() {
    let mut c = email_config();
    c.sendgrid_api_key = some("");
    assert!(matches!(select_email_backend(&c), EmailBackend::NotConfigured));
    assert!(matches!(select_email_backend(&email_config()), EmailBackend::NotConfigured));
}

#[test]
fn smtp_must_point_at_the_local_machine() {
    let mut c = email_config();
    c.smtp_host = some("smtp.example.com");
    c.sendgrid_api_key = some("SG.key");
    assert!(matches!(select_email_backend(&c), EmailBackend::SmtpHostNotLocal));
    for host in ["localhost", "127.0.0.1", "::1"] {
        c.smtp_host = some(host);
        assert!(matches!(select_email_backend(&c), EmailBackend::Smtp { .. }));
    }
}

#[test]
fn mailchimp_datacenter_is_after_last_dash() {
    assert_eq!(mailchimp_datacenter("abc123-us21"), some("us21"));
    assert_eq!(mailchimp_datacenter("a-b-us6"), some("us6"));
    assert_eq!(mailchimp_datacenter("-us21"), None);
    assert_eq!(mailchimp_datacenter("abc-"), None);
    assert_eq!(mailchimp_datacenter("abc"), None);
    assert_eq!(mailchimp_datacenter(""), None);
}

#[test]
fn marketing_setup_shapes() {
    assert!(matches!(marketing_setup(&None, &None), MarketingSetup::Disabled));
    assert!(matches!(marketing_setup(&some(""), &some("")), MarketingSetup::Disabled));
    assert!(matches!(marketing_setup(&some("k-us1"), &None), MarketingSetup::KeyWithoutList));
    assert!(matches!(marketing_setup(&None, &some("list")), MarketingSetup::ListWithoutKey));
    assert!(matches!(marketing_setup(&some("nodc"), &some("list")), MarketingSetup::MissingDatacenter));
    match marketing_setup(&some("key-us21"), &some("list1")) {
        MarketingSetup::Enabled { api_key, list_id, datacenter } => {
            assert_eq!(api_key, "key-us21");
            assert_eq!(list_id, "list1");
            assert_eq!(datacenter, "us21");
        }
        other => panic!("unexpected {:?}", other),
    }
}

#[test]
fn sendgrid_mailer_settings() {
    let s = EmailServiceSettings::new(some(""), None, None);
    assert_eq!(s.api_key, None);
    assert!(!s.sends_for_real());
    assert_eq!(s.from_email, "noreply@prodeko.org");
    assert_eq!(s.send_url(), "https://api.sendgrid.com/v3/mail/send");
    let s = EmailServiceSettings::new(some("SG.x"), some("http://mock"), some("a@b.fi"));
    assert!(s.sends_for_real());
    assert_eq!(s.from_email, "a@b.fi");
    assert_eq!(s.send_url(), "http://mock/v3/mail/send");
}

#[test]
fn listing_defaults() {
    let p = RolesWithStatsParams::new();
    assert!(p.page_size.is_none() && p.offset.is_none() && p.search.is_none());
    let d = RolesWithStatsParams::default();
    assert!(d.order_by.is_none() && d.order_desc.is_none());
    let q = role_stats_query(RolesWithStatsParams::new());
    assert_eq!(q.limit, i32::MAX);
    assert_eq!(q.page_index, 0);
    assert_eq!(q.direction, "ASC");
    let r = Role::default();
    assert_eq!(r.name, "");
    assert!(r.color.is_none() && r.description.is_none());
}

#[test]
fn role_stats_query_passes_paging_on() {
    let mut p = RolesWithStatsParams::new();
    p.page_size = Some(20);
    p.offset = Some(3);
    p.search = some("prodeko");
    p.order_by = some("name");
    p.order_desc = Some(true);
    let q = role_stats_query(p);
    assert_eq!(q.limit, 20);
    assert_eq!(q.page_index, 3);
    assert_eq!(q.search, some("prodeko"));
    assert_eq!(q.order_by, some("name"));
    assert_eq!(q.direction, "DESC");
}

#[test]
fn page_size_is_truncated_to_32_bits() {
    let mut p = RolesWithStatsParams::new();
    p.page_size = Some((1u64 << 32) + 5);
    p.offset = Some(u64::MAX);
    let q = role_stats_query(p);
    assert_eq!(q.limit, 5);
    assert_eq!(q.page_index, -1);
}

#[test]
fn members_query_keeps_filters() {
    let mut p = MembersWithRolesParams::new();
    p.roles = Some(vec!["prodeko-board".to_string()]);
    p.valid_from = chrono::NaiveDate::from_ymd_opt(2021, 1, 1);
    p.order_desc = Some(false);
    p.page_size = Some(10);
    let q = members_query(p);
    assert_eq!(q.roles, Some(vec!["prodeko-board".to_string()]));
    assert_eq!(q.valid_from, chrono::NaiveDate::from_ymd_opt(2021, 1, 1));
    assert_eq!(q.valid_until, None);
    assert_eq!(q.direction, "ASC");
    assert_eq!(q.limit, 10);
    assert_eq!(q.page_index, 0);
}

#[test]
fn small_query_helpers() {
    assert_eq!(direction(None), "ASC");
    assert_eq!(direction(Some(true)), "DESC");
    assert_eq!(audit_log_paging(None, None), (AUDIT_PAGE_SIZE, 0));
    assert_eq!(AUDIT_PAGE_SIZE, 50);
    assert_eq!(audit_log_paging(Some(10), Some(20)), (10, 20));
    assert_eq!(filter_text(None), "");
    assert_eq!(filter_text(some("pending")), "pending");
    assert!(member_ids_filter(None).is_empty());
    assert_eq!(member_ids_filter(Some(vec![1, 2])), vec![1, 2]);
}

#[test]
fn renewal_statuses_read_back() {
    assert_eq!(RenewalStatus::from_stored("paid"), RenewalStatus::Paid);
    assert_eq!(RenewalStatus::from_stored("expired"), RenewalStatus::Expired);
    assert_eq!(RenewalStatus::from_stored("pending"), RenewalStatus::Pending);
    assert_eq!(RenewalStatus::from_stored("weird"), RenewalStatus::Pending);
    for s in [RenewalStatus::Pending, RenewalStatus::Paid, RenewalStatus::Expired] {
        assert_eq!(RenewalStatus::from_stored(s.as_str()), s);
    }
}

#[test]
fn reminder_offsets_recorded_once() {
    let once = record_reminder(&Vec::new(), 14);
    assert_eq!(once, vec![14]);
    let twice = record_reminder(&once, 14);
    assert_eq!(twice, vec![14]);
    let more = record_reminder(&twice, 30);
    assert_eq!(more, vec![14, 30]);
    assert!(already_reminded(&more, 30));
    assert!(!already_reminded(&more, 7));
}

#[test]
fn csv_row_of_a_member() {
    let m = MemberWithRoles {
        user_id: MEMBER_ID,
        email: "t@example.com".to_string(),
        first_name: "Taneli".to_string(),
        last_name: "Mäkinen".to_string(),
        full_name: None,
        home_municipality: "Espoo".to_string(),
        has_accepted_policies: true,
        role_names: "[\"prodeko-board\"]".to_string(),
    };
    assert_eq!(
        m.to_csv_row(),
        vec![
            "3e1ab0ea-c56a-457f-961f-13938954bb2b",
            "Taneli",
            "Mäkinen",
            "",
            "Espoo",
            "true",
            "t@example.com",
            "[\"prodeko-board\"]",
        ]
    );
    assert_eq!(bool_text(false), "false");
}

#[test]
fn csv_fields_are_quoted_where_needed() {
    assert_eq!(csv_field("plain"), "plain");
    assert_eq!(csv_field("a,b"), "\"a,b\"");
    assert_eq!(csv_field("say \"hi\""), "\"say \"\"hi\"\"\"");
    assert_eq!(csv_field("two\nlines"), "\"two\nlines\"");
    let row = vec!["x".to_string(), "[\"a\",\"b\"]".to_string(), "".to_string()];
    assert_eq!(csv_line(&row), "x,\"[\"\"a\"\",\"\"b\"\"]\",");
    assert_eq!(csv_line(&Vec::new()), "");
}

#[test]
fn sendgrid_mail_body() {
    let s = EmailServiceSettings::new(some("SG.x"), None, some("board@prodeko.org"));
    let m = s.mail("t@example.com", "Hello", "<p>Hi</p>");
    assert_eq!(m.to, "t@example.com");
    assert_eq!(m.from_email, "board@prodeko.org");
    assert_eq!(m.subject, "Hello");
    assert_eq!(m.content_type, "text/html");
    assert_eq!(m.html_body, "<p>Hi</p>");
}

#[test]
fn audit_entity_names() {
    assert_eq!(id_entity(MEMBER_ID), "3e1ab0ea-c56a-457f-961f-13938954bb2b");
    assert_eq!(id_entity(0), "00000000-0000-0000-0000-000000000000");
    assert_eq!(
        role_member_entity(MEMBER_ID, "prodeko-board"),
        "3e1ab0ea-c56a-457f-961f-13938954bb2b:prodeko-board"
    );
}

#[test]
fn audit_entries() {
    let e = audit_entry(Some(MEMBER_ID), AuditAction::MemberCreate, "abc".to_string());
    assert_eq!(e.actor_user_id, Some(MEMBER_ID));
    assert_eq!(e.action, "member.create");
    assert_eq!(e.entity_type, "member");
    assert_eq!(e.entity_id, "abc");
    let e = audit_entry(None, AuditAction::ApplicationPaymentReceived, "app".to_string());
    assert_eq!(e.actor_user_id, None);
    assert_eq!(e.action, "application.payment_received");
    assert_eq!(e.entity_type, "application");
    assert_eq!(AuditAction::RoleMemberAssign.name(), "role_member.assign");
    assert_eq!(AuditAction::RoleMemberAssign.entity_type(), "role_member");
}

#[test]
fn role_names_skip_non_strings() {
    let names = role_names_from_json(Some(vec![some("a"), None, some("b")]));
    assert_eq!(names, vec!["a".to_string(), "b".to_string()]);
    assert!(role_names_from_json(Some(vec![None])).is_empty());
    assert!(role_names_from_json(None).is_empty());
}

#[test]
fn localized_template_falls_back_to_finnish() {
    assert_eq!(fallback_locale(), "fi");
    let l: LocaleLookup<u8> = LocaleLookup::start();
    let found = l.requested(Ok(Some(1)));
    assert!(matches!(found.step, LocaleStep::Done(Ok(1))));
    let l: LocaleLookup<u8> = LocaleLookup::start();
    let missing = l.requested(Ok(None));
    assert!(matches!(missing.step, LocaleStep::FetchFallback));
    let fb = missing.fallback(Ok(2));
    assert!(matches!(fb.step, LocaleStep::Done(Ok(2))));
    let l: LocaleLookup<u8> = LocaleLookup::start();
    let missing = l.requested(Ok(None));
    assert!(matches!(missing.fallback(Err(())).step, LocaleStep::Done(Err(()))));
    let l: LocaleLookup<u8> = LocaleLookup::start();
    assert!(matches!(l.requested(Err(())).step, LocaleStep::Done(Err(()))));
}

#[test]
fn deletions_that_touched_nothing() {
    assert!(!deleted_any(0));
    assert!(deleted_any(3));
    assert_eq!(delete_outcome(0), DeleteOutcome::NotFound);
    assert_eq!(delete_outcome(1), DeleteOutcome::Deleted);
}

#[test]
fn database_errors_map_to_service_errors() {
    assert_eq!(ServiceError::from_db(DbErrorKind::RowNotFound), ServiceError::NotFound);
    assert_eq!(ServiceError::from_db(DbErrorKind::ConstraintViolation), ServiceError::Constraint);
    assert_eq!(ServiceError::from_db(DbErrorKind::Other), ServiceError::DatabaseError);
    assert_eq!(db_result::<u8>(Ok(4)), Ok(4));
    assert_eq!(db_result::<u8>(Err(DbErrorKind::Other)), Err(ServiceError::DatabaseError));
    assert!(matches!(auth_provider_error_from_db(DbErrorKind::RowNotFound, String::new()), AuthProviderRepoError::NotFound));
    assert!(matches!(auth_provider_error_from_db(DbErrorKind::ConstraintViolation, String::new()), AuthProviderRepoError::AlreadyExists));
    match auth_provider_error_from_db(DbErrorKind::Other, "boom".to_string()) {
        AuthProviderRepoError::Unavailable(m) => assert_eq!(m, "boom"),
        other => panic!("unexpected {:?}", other),
    }
}
