//! E-mail templates: which placeholders they may hold, how their HTML is
//! cleaned before it is stored, how they are filled in, and when a
//! notification is sent.
use vstd::prelude::*;
use crate::error::ServiceError;
use crate::model::EmailTemplate;
use crate::text::{lemma_replace_absent, occurs_at, replace_all, replace_text};

verus! {

/// What `regex::Regex::new(pattern)` and then `captures_iter(haystack)`
/// give: `None` where the pattern does not compile, otherwise, for each
/// successive non-overlapping match from the left, the text of its first
/// capture group (`None` for a match in which that group took no part).
pub uninterp spec fn regex_first_groups(pattern: Seq<char>, haystack: Seq<char>) -> Option<Seq<Option<Seq<char>>>>;

/// Compiles `pattern` with `regex::Regex::new` and collects, with
/// `Regex::captures_iter` and `Captures::get(1)`, the first capture group
/// of every match in `haystack`. Both calls are needed to name the result by
/// plain values; the contract claims only that the result is the one that
/// `regex_first_groups` names, a function of the two strings alone.
#[verifier::external_body]
fn regex_first_group_matches(pattern: &str, haystack: &str) -> (r: Option<Vec<Option<String>>>)
    ensures
        r.deep_view() == regex_first_groups(pattern@, haystack@),
{
    match regex::Regex::new(pattern) {
        Ok(re) => Some(re.captures_iter(haystack).map(|c| c.get(1).map(|m| m.as_str().to_string())).collect()),
        Err(_) => None,
    }
}

/// What `ammonia::clean` makes of an HTML fragment with ammonia's default
/// rules.
pub uninterp spec fn ammonia_clean(html: Seq<char>) -> Seq<char>;

/// Calls `ammonia::clean`, which cleans HTML with a fixed default rule set;
/// the contract claims only that the result is the one that `ammonia_clean`
/// names, a function of the input alone.
#[verifier::external_body]
fn clean_html(html: &str) -> (r: String)
    ensures
        r@ == ammonia_clean(html@),
{
    ammonia::clean(html)
}

/// A placeholder: an opening brace, a name made of word characters (the
/// first capture group), a closing brace.
pub open spec fn placeholder_pattern_spec() -> Seq<char> {
    "\\{(\\w+)\\}"@
}

pub fn placeholder_pattern() -> (s: &'static str)
    ensures
        s@ == placeholder_pattern_spec(),
{
    "\\{(\\w+)\\}"
}

/// The placeholders that a template may hold: `{name}` and `{role_name}`.
pub open spec fn is_allowed_placeholder(name: Option<Seq<char>>) -> bool {
    name == Some("name"@) || name == Some("role_name"@)
}

pub open spec fn all_placeholders_allowed(names: Seq<Option<Seq<char>>>) -> bool {
    forall|i: int| 0 <= i < names.len() ==> is_allowed_placeholder(#[trigger] names[i])
}

fn is_allowed_placeholder_exec(name: &Option<String>) -> (r: bool)
    ensures
        r == is_allowed_placeholder(name.deep_view()),
{
    match name {
        None => false,
        Some(n) => crate::text::same_text(n.as_str(), "name") || crate::text::same_text(n.as_str(), "role_name"),
    }
}

/// Checks placeholder names found in a template: `InvalidTemplate` as soon
/// as one is not allowed.
pub fn check_placeholder_names(names: &Vec<Option<String>>) -> (r: Result<(), ServiceError>)
    ensures
        r is Ok <==> all_placeholders_allowed(names.deep_view()),
        r is Err ==> r == Err::<(), ServiceError>(ServiceError::InvalidTemplate),
{
    let mut i: usize = 0;
    while i < names.len()
        invariant
            i <= names.len(),
            forall|j: int| 0 <= j < i ==> is_allowed_placeholder(#[trigger] names.deep_view()[j]),
        decreases names.len() - i,
    {
        if !is_allowed_placeholder_exec(&names[i]) {
            assert(!is_allowed_placeholder(names.deep_view()[i as int]));
            return Err(ServiceError::InvalidTemplate);
        }
        i += 1;
    }
    Ok(())
}

/// The result of checking the placeholders of `text`.
pub open spec fn placeholders_ok(text: Seq<char>) -> bool {
    match regex_first_groups(placeholder_pattern_spec(), text) {
        Some(names) => all_placeholders_allowed(names),
        None => false,
    }
}

/// Checks that every placeholder in `text` is `{name}` or `{role_name}`;
/// `InvalidTemplate` otherwise.
pub fn validate_placeholders(text: &str) -> (r: Result<(), ServiceError>)
    ensures
        r is Ok <==> placeholders_ok(text@),
        r is Err ==> r == Err::<(), ServiceError>(ServiceError::InvalidTemplate),
{
    match regex_first_group_matches(placeholder_pattern(), text) {
        Some(names) => check_placeholder_names(&names),
        None => Err(ServiceError::InvalidTemplate),
    }
}

/// Checks the placeholders of an HTML body and, where they are allowed,
/// cleans it with ammonia.
pub fn sanitize_body(body_html: &str) -> (r: Result<String, ServiceError>)
    ensures
        r is Ok <==> placeholders_ok(body_html@),
        match r {
            Ok(s) => s@ == ammonia_clean(body_html@),
            Err(e) => e == ServiceError::InvalidTemplate,
        },
{
    validate_placeholders(body_html)?;
    Ok(clean_html(body_html))
}

/// Checks a template that is about to be stored: its subject and body may
/// hold only the allowed placeholders; the body that is stored is the
/// cleaned one.
pub fn prepare_template(subject: &str, body_html: &str) -> (r: Result<String, ServiceError>)
    ensures
        r is Ok <==> placeholders_ok(subject@) && placeholders_ok(body_html@),
        match r {
            Ok(s) => s@ == ammonia_clean(body_html@),
            Err(e) => e == ServiceError::InvalidTemplate,
        },
{
    validate_placeholders(subject)?;
    sanitize_body(body_html)
}

/// A template with `{name}` filled in, then `{role_name}`.
pub open spec fn render_spec(template: Seq<char>, name: Seq<char>, role_name: Seq<char>) -> Seq<char> {
    replace_all(replace_all(template, "{name}"@, name), "{role_name}"@, role_name)
}

/// Fills in a template: every `{name}` becomes `name`, then every
/// `{role_name}` becomes `role_name`.
pub fn render_template(template: &str, name: &str, role_name: &str) -> (r: String)
    ensures
        r@ == render_spec(template@, name@, role_name@),
{
    proof {
        reveal_strlit("{name}");
        reveal_strlit("{role_name}");
    }
    let first = replace_text(template, "{name}", name);
    replace_text(first.as_str(), "{role_name}", role_name)
}

/// A template that holds neither `{name}` nor `{role_name}` is sent as it
/// is, whatever the names it is filled in with.
pub proof fn law_render_without_placeholders(template: Seq<char>, name: Seq<char>, role_name: Seq<char>)
    requires
        forall|i: int| !occurs_at(template, "{name}"@, i),
        forall|i: int| !occurs_at(template, "{role_name}"@, i),
    ensures
        render_spec(template, name, role_name) == template,
{
    reveal_strlit("{name}");
    reveal_strlit("{role_name}");
    lemma_replace_absent(template, "{name}"@, name);
    lemma_replace_absent(template, "{role_name}"@, role_name);
}

/// Where sending a notification stands.
#[derive(Debug)]
pub enum NotificationStep {
    /// Read the template named `template_name`.
    FetchTemplate,
    /// Hand the rendered mail to the mailer.
    Send { subject: String, body: String },
    /// No mailer is configured: log the mail that would have been sent.
    LogMock { subject: String },
    Done,
}

/// Sending the notification `template_name` to `to`, addressed to
/// `recipient_name` about `role_name`. Nothing is sent where no template or
/// no address is given, or where the template cannot be read.
#[derive(Debug)]
pub struct NotificationFlow {
    pub template_name: Option<String>,
    pub to: Option<String>,
    pub recipient_name: String,
    pub role_name: String,
    pub has_mailer: bool,
    pub step: NotificationStep,
}

impl NotificationFlow {
    pub fn start(
        template_name: Option<String>,
        to: Option<String>,
        recipient_name: String,
        role_name: String,
        has_mailer: bool,
    ) -> (f: NotificationFlow)
        ensures
            f.template_name == template_name,
            f.to == to,
            f.recipient_name == recipient_name,
            f.role_name == role_name,
            f.has_mailer == has_mailer,
            (template_name is Some && to is Some) ==> f.step is FetchTemplate,
            !(template_name is Some && to is Some) ==> f.step is Done,
    {
        let step = if template_name.is_some() && to.is_some() {
            NotificationStep::FetchTemplate
        } else {
            NotificationStep::Done
        };
        NotificationFlow { template_name, to, recipient_name, role_name, has_mailer, step }
    }

    /// After the template was read (`None` where it could not be).
    pub fn template_fetched(self, template: Option<EmailTemplate>) -> (r: NotificationFlow)
        requires
            self.step is FetchTemplate,
        ensures
            r.template_name == self.template_name,
            r.to == self.to,
            r.recipient_name == self.recipient_name,
            r.role_name == self.role_name,
            r.has_mailer == self.has_mailer,
            template is None ==> r.step is Done,
            template matches Some(t) ==> (if self.has_mailer {
                r.step matches NotificationStep::Send { subject, body }
                    && subject@ == render_spec(t.subject@, self.recipient_name@, self.role_name@)
                    && body@ == render_spec(t.body_html@, self.recipient_name@, self.role_name@)
            } else {
                r.step matches NotificationStep::LogMock { subject }
                    && subject@ == render_spec(t.subject@, self.recipient_name@, self.role_name@)
            }),
    {
        let NotificationFlow { template_name, to, recipient_name, role_name, has_mailer, step: _ } = self;
        let step = match template {
            None => NotificationStep::Done,
            Some(t) => {
                let subject = render_template(t.subject.as_str(), recipient_name.as_str(), role_name.as_str());
                if has_mailer {
                    let body = render_template(t.body_html.as_str(), recipient_name.as_str(), role_name.as_str());
                    NotificationStep::Send { subject, body }
                } else {
                    NotificationStep::LogMock { subject }
                }
            },
        };
        NotificationFlow { template_name, to, recipient_name, role_name, has_mailer, step }
    }

    /// After the mail was handed over or logged.
    pub fn delivered(self) -> (r: NotificationFlow)
        ensures
            r.step is Done,
            r.template_name == self.template_name,
            r.to == self.to,
    {
        NotificationFlow { step: NotificationStep::Done, ..self }
    }
}

} // verus!
