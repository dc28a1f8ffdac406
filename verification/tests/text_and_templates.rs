use membership_registry::error::ServiceError;
use membership_registry::model::EmailTemplate;
use membership_registry::notification::{
    check_placeholder_names, placeholder_pattern, prepare_template, render_template, sanitize_body,
    validate_placeholders, NotificationFlow, NotificationStep,
};
use membership_registry::text::{replace_text, same_text};

#[test]
fn same_text_compares_characters() {
    assert!(same_text("pending", "pending"));
    assert!(!same_text("pending", "pendin"));
    assert!(!same_text("Pending", "pending"));
    assert!(same_text("", ""));
    assert!(same_text("äö", "äö"));
}

#[test]
fn replace_text_matches_str_replace() {
    let cases = [
        ("aaa", "aa", "b"),
        ("{name}{name}", "{name}", "X"),
        ("no placeholder", "{name}", "X"),
        ("", "{name}", "X"),
        ("{nam", "{name}", "X"),
        ("häst {name} ö", "{name}", "Åsa"),
        ("a|b|c", "|", "%7C"),
    ];
    for (s, p, r) in cases {
        assert_eq!(replace_text(s, p, r), s.replace(p, r));
    }
    assert_eq!(replace_text("aaa", "aa", "b"), "ba");
}

#[test]
fn render_template_fills_both_placeholders() {
    let out = render_template("Hei {name}, olet nyt {role_name}! ({name})", "Taneli", "hallitus");
    assert_eq!(out, "Hei Taneli, olet nyt hallitus! (Taneli)");
}

#[test]
fn render_template_leaves_other_braces() {
    assert_eq!(render_template("{year} {name}", "A", "B"), "{year} A");
    assert_eq!(render_template("plain text", "A", "B"), "plain text");
}

#[test]
fn render_template_replaces_name_before_role_name() {
    // A name that itself spells a placeholder is filled in on the second pass.
    assert_eq!(render_template("{name}", "{role_name}", "R"), "R");
    assert_eq!(render_template("{role_name}", "N", "{name}"), "{name}");
}

#[test]
fn placeholder_pattern_is_brace_word_brace() {
    assert_eq!(placeholder_pattern(), r"\{(\w+)\}");
}

#[test]
fn allowed_placeholders_pass() {
    assert!(validate_placeholders("Hello {name}, welcome to {role_name}").is_ok());
    assert!(validate_placeholders("no placeholders at all").is_ok());
    assert!(validate_placeholders("{ name} and {} are not placeholders").is_ok());
}

#[test]
fn unknown_placeholder_is_invalid_template() {
    assert!(matches!(validate_placeholders("Hello {first_name}"), Err(ServiceError::InvalidTemplate)));
    assert!(matches!(validate_placeholders("{name}{year}"), Err(ServiceError::InvalidTemplate)));
    assert!(matches!(validate_placeholders("{nämi}"), Err(ServiceError::InvalidTemplate)));
}

#[test]
fn check_placeholder_names_rejects_first_bad_name() {
    let ok = vec![Some("name".to_string()), Some("role_name".to_string())];
    assert!(check_placeholder_names(&ok).is_ok());
    let bad = vec![Some("name".to_string()), Some("other".to_string())];
    assert!(matches!(check_placeholder_names(&bad), Err(ServiceError::InvalidTemplate)));
    let missing = vec![None];
    assert!(matches!(check_placeholder_names(&missing), Err(ServiceError::InvalidTemplate)));
    assert!(check_placeholder_names(&vec![]).is_ok());
}

#[test]
fn sanitize_body_strips_scripts() {
    assert_eq!(sanitize_body("XSS<script>attack</script>").unwrap(), "XSS");
    assert_eq!(sanitize_body("<p>Hei {name}</p>").unwrap(), "<p>Hei {name}</p>");
}

#[test]
fn sanitize_body_rejects_bad_placeholders_before_cleaning() {
    assert!(matches!(sanitize_body("<p>{password}</p>"), Err(ServiceError::InvalidTemplate)));
}

#[test]
fn prepare_template_checks_subject_and_body() {
    assert_eq!(prepare_template("Tervetuloa {name}", "<b>{role_name}</b><script>x</script>").unwrap(), "<b>{role_name}</b>");
    assert!(matches!(prepare_template("Hi {bad}", "<b>ok</b>"), Err(ServiceError::InvalidTemplate)));
    assert!(matches!(prepare_template("Hi", "<b>{bad}</b>"), Err(ServiceError::InvalidTemplate)));
}

fn template() -> EmailTemplate {
    EmailTemplate {
        name: "approved".to_string(),
        subject: "Welcome {name}".to_string(),
        body_html: "<p>You are now {role_name}</p>".to_string(),
    }
}

#[test]
fn notification_needs_template_and_address() {
    let f = NotificationFlow::start(None, Some("a@b.fi".to_string()), "A".to_string(), "R".to_string(), true);
    assert!(matches!(f.step, NotificationStep::Done));
    let f = NotificationFlow::start(Some("approved".to_string()), None, "A".to_string(), "R".to_string(), true);
    assert!(matches!(f.step, NotificationStep::Done));
}

#[test]
fn notification_renders_and_sends_with_mailer() {
    let f = NotificationFlow::start(Some("approved".to_string()), Some("a@b.fi".to_string()), "Aino".to_string(), "board".to_string(), true);
    assert!(matches!(f.step, NotificationStep::FetchTemplate));
    let f = f.template_fetched(Some(template()));
    match &f.step {
        NotificationStep::Send { subject, body } => {
            assert_eq!(subject, "Welcome Aino");
            assert_eq!(body, "<p>You are now board</p>");
        }
        other => panic!("unexpected step {other:?}"),
    }
    assert!(matches!(f.delivered().step, NotificationStep::Done));
}

#[test]
fn notification_without_mailer_is_logged() {
    let f = NotificationFlow::start(Some("approved".to_string()), Some("a@b.fi".to_string()), "Aino".to_string(), "board".to_string(), false);
    let f = f.template_fetched(Some(template()));
    match &f.step {
        NotificationStep::LogMock { subject } => assert_eq!(subject, "Welcome Aino"),
        other => panic!("unexpected step {other:?}"),
    }
}

#[test]
fn notification_with_missing_template_sends_nothing() {
    let f = NotificationFlow::start(Some("gone".to_string()), Some("a@b.fi".to_string()), "A".to_string(), "R".to_string(), true);
    let f = f.template_fetched(None);
    assert!(matches!(f.step, NotificationStep::Done));
}

#[test]
fn replace_text_with_empty_pattern() {
    assert_eq!(replace_text("ab", "", "X"), "ab".replace("", "X"));
    assert_eq!(replace_text("ab", "", "X"), "XaXbX");
    assert_eq!(replace_text("", "", "X"), "X");
}
