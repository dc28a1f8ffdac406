//! Start-up choices that the configuration determines: which e-mail
//! backend is used and whether the marketing sync runs.
use vstd::prelude::*;
use vstd::string::*;
use crate::text::same_text;

verus! {

/// A configured value, where it is present and not empty.
pub open spec fn non_empty_spec(value: Option<String>) -> Option<String> {
    match value {
        Some(v) => if v@.len() > 0 { Some(v) } else { None },
        None => None,
    }
}

/// A configured value, where it is present and not empty.
pub fn non_empty(value: &Option<String>) -> (r: Option<String>)
    ensures
        r == non_empty_spec(*value),
{
    match value {
        Some(v) => if v.as_str().unicode_len() > 0 { Some(v.clone()) } else { None },
        None => None,
    }
}

/// A configured value, or `default` where it is absent or empty.
pub open spec fn or_default_spec(value: Option<String>, default: Seq<char>) -> Seq<char> {
    match non_empty_spec(value) {
        Some(v) => v@,
        None => default,
    }
}

fn or_default(value: &Option<String>, default: &str) -> (r: String)
    ensures
        r@ == or_default_spec(*value, default@),
{
    match non_empty(value) {
        Some(v) => v,
        None => String::from_str(default),
    }
}

/// The sender address used where none is configured.
pub open spec fn default_from_email() -> Seq<char> {
    "noreply@prodeko.org"@
}

/// The SendGrid API used where none is configured.
pub open spec fn default_sendgrid_url() -> Seq<char> {
    "https://api.sendgrid.com"@
}

/// The SMTP port used where none is configured (Mailpit's).
pub const DEFAULT_SMTP_PORT: u16 = 1025;

/// The e-mail settings of the configuration.
#[derive(Debug)]
pub struct EmailConfig {
    pub smtp_host: Option<String>,
    pub smtp_port: Option<u16>,
    pub smtp_from_email: Option<String>,
    pub sendgrid_api_key: Option<String>,
    pub sendgrid_api_url: Option<String>,
    pub sendgrid_from_email: Option<String>,
}

/// The e-mail backend that the configuration selects.
#[derive(Debug)]
pub enum EmailBackend {
    Smtp { host: String, port: u16, from_email: String },
    SendGrid { api_key: String, base_url: String, from_email: String },
    /// Start-up is refused: neither SMTP nor SendGrid is configured.
    NotConfigured,
    /// Start-up is refused: SMTP is configured with a host that is not the
    /// local machine, which would send real mail through a development
    /// setup.
    SmtpHostNotLocal,
}

/// The hosts that count as the local machine for SMTP.
pub open spec fn is_local_host(host: Seq<char>) -> bool {
    host == "localhost"@ || host == "127.0.0.1"@ || host == "::1"@
}

fn is_local_host_exec(host: &str) -> (b: bool)
    ensures
        b == is_local_host(host@),
{
    same_text(host, "localhost") || same_text(host, "127.0.0.1") || same_text(host, "::1")
}

/// SMTP takes precedence (it is meant for development against Mailpit, on
/// the local machine), SendGrid is used otherwise; with neither configured,
/// or with SMTP pointing elsewhere than the local machine, start-up is
/// refused. Absent or empty values take the defaults.
pub fn select_email_backend(config: &EmailConfig) -> (b: EmailBackend)
    ensures
        match non_empty_spec(config.smtp_host) {
            Some(host) => if !is_local_host(host@) {
                b is SmtpHostNotLocal
            } else {
                b matches EmailBackend::Smtp { host: h, port, from_email }
                && h == host
                && port == (match config.smtp_port { Some(p) => p, None => DEFAULT_SMTP_PORT })
                && from_email@ == or_default_spec(config.smtp_from_email, default_from_email())
            },
            None => match non_empty_spec(config.sendgrid_api_key) {
                Some(key) => b matches EmailBackend::SendGrid { api_key, base_url, from_email }
                    && api_key == key
                    && base_url@ == or_default_spec(config.sendgrid_api_url, default_sendgrid_url())
                    && from_email@ == or_default_spec(config.sendgrid_from_email, default_from_email()),
                None => b is NotConfigured,
            },
        },
{
    match non_empty(&config.smtp_host) {
        Some(host) => {
            if !is_local_host_exec(host.as_str()) {
                return EmailBackend::SmtpHostNotLocal;
            }
            let port = match config.smtp_port {
                Some(p) => p,
                None => DEFAULT_SMTP_PORT,
            };
            EmailBackend::Smtp { host, port, from_email: or_default(&config.smtp_from_email, "noreply@prodeko.org") }
        },
        None => match non_empty(&config.sendgrid_api_key) {
            Some(api_key) => EmailBackend::SendGrid {
                api_key,
                base_url: or_default(&config.sendgrid_api_url, "https://api.sendgrid.com"),
                from_email: or_default(&config.sendgrid_from_email, "noreply@prodeko.org"),
            },
            None => EmailBackend::NotConfigured,
        },
    }
}

/// The datacenter of a Mailchimp API key of the form `<key>-<dc>`: the
/// text after the last `-`, where that and the text before it are not
/// empty.
pub open spec fn last_dash(s: Seq<char>, p: int) -> bool {
    &&& 0 <= p < s.len()
    &&& s[p] == '-'
    &&& forall|j: int| p < j < s.len() ==> s[j] != '-'
}

pub open spec fn datacenter_spec(api_key: Seq<char>) -> Option<Seq<char>> {
    if exists|p: int| last_dash(api_key, p) {
        let p = choose|p: int| last_dash(api_key, p);
        if p > 0 && p + 1 < api_key.len() {
            Some(api_key.skip(p + 1))
        } else {
            None
        }
    } else {
        None
    }
}

pub fn mailchimp_datacenter(api_key: &str) -> (r: Option<String>)
    ensures
        match datacenter_spec(api_key@) {
            Some(dc) => r matches Some(d) && d@ == dc,
            None => r is None,
        },
{
    let n = api_key.unicode_len();
    let mut i: usize = n;
    while i > 0 && api_key.get_char(i - 1) != '-'
        invariant
            n == api_key@.len(),
            i <= n,
            forall|j: int| i <= j < n ==> api_key@[j] != '-',
        decreases i,
    {
        i = i - 1;
    }
    if i == 0 {
        assert forall|p: int| !last_dash(api_key@, p) by {
            if last_dash(api_key@, p) {
                assert(api_key@[p] == '-');
            }
        }
        return None;
    }
    let p: usize = i - 1;
    assert(last_dash(api_key@, p as int));
    proof {
        let q = choose|q: int| last_dash(api_key@, q);
        assert(q == p) by {
            if q < p {
                assert(api_key@[p as int] == '-');
            }
            if q > p {
                assert(api_key@[q] == '-');
            }
        }
    }
    if p > 0 && p + 1 < n {
        let dc = api_key.substring_char(p + 1, n);
        assert(dc@ =~= api_key@.skip(p + 1));
        Some(String::from_str(dc))
    } else {
        None
    }
}

/// What the Mailchimp settings make of the marketing sync.
#[derive(Debug)]
pub enum MarketingSetup {
    /// Neither setting is given: the sync is off.
    Disabled,
    Enabled { api_key: String, list_id: String, datacenter: String },
    /// Start-up is refused: the API key lacks its datacenter suffix.
    MissingDatacenter,
    /// Start-up is refused: an API key without a list id.
    KeyWithoutList,
    /// Start-up is refused: a list id without an API key.
    ListWithoutKey,
}

/// The marketing sync runs only with both settings given and the key
/// carrying its datacenter; it is off with neither; any other shape
/// refuses start-up, rather than leaving the sync silently off.
pub fn marketing_setup(api_key: &Option<String>, list_id: &Option<String>) -> (m: MarketingSetup)
    ensures
        match (non_empty_spec(*api_key), non_empty_spec(*list_id)) {
            (None, None) => m is Disabled,
            (Some(_), None) => m is KeyWithoutList,
            (None, Some(_)) => m is ListWithoutKey,
            (Some(k), Some(l)) => match datacenter_spec(k@) {
                Some(dc) => m matches MarketingSetup::Enabled { api_key: key, list_id: list, datacenter }
                    && key == k && list == l && datacenter@ == dc,
                None => m is MissingDatacenter,
            },
        },
{
    match (non_empty(api_key), non_empty(list_id)) {
        (None, None) => MarketingSetup::Disabled,
        (Some(_), None) => MarketingSetup::KeyWithoutList,
        (None, Some(_)) => MarketingSetup::ListWithoutKey,
        (Some(k), Some(l)) => match mailchimp_datacenter(k.as_str()) {
            Some(datacenter) => MarketingSetup::Enabled { api_key: k, list_id: l, datacenter },
            None => MarketingSetup::MissingDatacenter,
        },
    }
}

/// A mail as SendGrid's send API takes it: one recipient, the sender, the
/// subject, and one piece of content of the given type.
#[derive(Debug)]
pub struct SendGridMail {
    pub to: String,
    pub from_email: String,
    pub subject: String,
    pub content_type: String,
    pub html_body: String,
}

/// The settings of the SendGrid mailer: an API key only where a non-empty
/// one is given, the sender and API address defaulting where absent or
/// empty.
#[derive(Debug)]
pub struct EmailServiceSettings {
    pub api_key: Option<String>,
    pub from_email: String,
    pub base_url: String,
}

impl EmailServiceSettings {
    pub fn new(api_key: Option<String>, api_url: Option<String>, from_email: Option<String>) -> (s: EmailServiceSettings)
        ensures
            s.api_key == non_empty_spec(api_key),
            s.from_email@ == or_default_spec(from_email, default_from_email()),
            s.base_url@ == or_default_spec(api_url, default_sendgrid_url()),
    {
        EmailServiceSettings {
            api_key: non_empty(&api_key),
            from_email: or_default(&from_email, "noreply@prodeko.org"),
            base_url: or_default(&api_url, "https://api.sendgrid.com"),
        }
    }

    /// The SendGrid endpoint that mails are posted to.
    pub fn send_url(&self) -> (u: String)
        ensures
            u@ == self.base_url@ + "/v3/mail/send"@,
    {
        self.base_url.clone().concat("/v3/mail/send")
    }

    /// The mail posted to SendGrid: to `to`, from the configured sender,
    /// with `subject` and the HTML body `html_body`.
    pub fn mail(&self, to: &str, subject: &str, html_body: &str) -> (m: SendGridMail)
        ensures
            m.to@ == to@,
            m.from_email@ == self.from_email@,
            m.subject@ == subject@,
            m.content_type@ == "text/html"@,
            m.html_body@ == html_body@,
    {
        SendGridMail {
            to: String::from_str(to),
            from_email: self.from_email.clone(),
            subject: String::from_str(subject),
            content_type: String::from_str("text/html"),
            html_body: String::from_str(html_body),
        }
    }

    /// Whether a mail is really sent: only with an API key; without one it
    /// is logged instead.
    pub fn sends_for_real(&self) -> (b: bool)
        ensures
            b == self.api_key is Some,
    {
        self.api_key.is_some()
    }
}

} // verus!
