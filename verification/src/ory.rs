//! The Ory-based identity service: where its Kratos, Keto and Hydra APIs
//! live, how it asks whether a user is an administrator, and how it reads
//! the userinfo answer.
use vstd::prelude::*;
use vstd::string::*;
use crate::member::id_text;
use crate::jwt::text_view;
use crate::text::{replace_all, replace_text};

verus! {

/// What `uuid::Uuid::parse_str` gives for a text: the id it denotes, or
/// `None` where the text is not one of the forms it accepts.
pub uninterp spec fn uuid_parse(s: Seq<char>) -> Option<u128>;

/// Calls `uuid::Uuid::parse_str` and reads the id as a 128-bit integer. The
/// contract claims that the result is the one `uuid_parse` names, and,
/// since the hyphenated lower-case form is one that the function accepts
/// and `as_u128` reads the bytes in the order `from_u128` wrote them, that
/// such a text parses back to its id.
#[verifier::external_body]
fn parse_uuid(s: &str) -> (r: Option<u128>)
    ensures
        r == uuid_parse(s@),
        forall|id: u128| s@ == id_text(id) ==> r == Some(id),
{
    uuid::Uuid::parse_str(s).ok().map(|u| u.as_u128())
}

/// The base path of one of the Ory APIs behind `base_path`.
pub fn kratos_path(base_path: &str) -> (r: String)
    ensures
        r@ == base_path@ + "/kratos"@,
{
    String::from_str(base_path).concat("/kratos")
}

pub fn keto_public_path(base_path: &str) -> (r: String)
    ensures
        r@ == base_path@ + "/keto/public"@,
{
    String::from_str(base_path).concat("/keto/public")
}

pub fn keto_admin_path(base_path: &str) -> (r: String)
    ensures
        r@ == base_path@ + "/keto"@,
{
    String::from_str(base_path).concat("/keto")
}

pub fn hydra_public_path(base_path: &str) -> (r: String)
    ensures
        r@ == base_path@ + "/hydra/public"@,
{
    String::from_str(base_path).concat("/hydra/public")
}

/// A Keto permission check: may the subject set `subject_namespace:
/// subject_object#subject_relation` have `relation` on `namespace:object`?
#[derive(Debug)]
pub struct PermissionCheck {
    pub namespace: String,
    pub object: String,
    pub relation: String,
    pub subject_namespace: String,
    pub subject_object: String,
    pub subject_relation: String,
}

/// The check that makes a user an administrator: `access` to the scope
/// `membership-registry-admin-scope`, for the user set of the user's id.
pub fn admin_permission_check(user_id: u128) -> (c: PermissionCheck)
    ensures
        c.namespace@ == "Scope"@,
        c.object@ == "membership-registry-admin-scope"@,
        c.relation@ == "access"@,
        c.subject_namespace@ == "User"@,
        c.subject_object@ == id_text(user_id),
        c.subject_relation@ == Seq::<char>::empty(),
{
    PermissionCheck {
        namespace: String::from_str("Scope"),
        object: String::from_str("membership-registry-admin-scope"),
        relation: String::from_str("access"),
        subject_namespace: String::from_str("User"),
        subject_object: crate::member::id_entity(user_id),
        subject_relation: String::new(),
    }
}

/// Who a request belongs to, as the Ory userinfo endpoint tells it.
#[derive(Debug)]
pub struct OryAuthInfo {
    pub user_id: u128,
    pub access_token: String,
    pub first_name: String,
    pub last_name: String,
    pub email: String,
}

/// Why a userinfo answer could not be used.
#[derive(Debug, Clone, Copy, PartialEq, Eq, Structural)]
pub enum OryUserinfoError {
    /// The subject is not a user id.
    BadSubject,
    /// A name or the e-mail address is missing.
    MissingProfile,
    /// The answer is not JSON.
    BadResponse,
}

impl OryUserinfoError {
    pub fn message(&self) -> (s: &'static str)
        ensures
            *self == OryUserinfoError::BadSubject ==> s@ == "Failed to parse user id"@,
            *self == OryUserinfoError::MissingProfile ==> s@ == "Did not find profile or email data from userinfo!"@,
            *self == OryUserinfoError::BadResponse ==> s@ == "Failed to parse response"@,
    {
        match self {
            OryUserinfoError::BadResponse => "Failed to parse response",
            OryUserinfoError::BadSubject => "Failed to parse user id",
            OryUserinfoError::MissingProfile => "Did not find profile or email data from userinfo!",
        }
    }
}

/// A JSON value's text without its double quotes.
pub open spec fn unquoted(json: Seq<char>) -> Seq<char> {
    replace_all(json, "\""@, ""@)
}

fn unquote(json: &str) -> (r: String)
    ensures
        r@ == unquoted(json@),
{
    proof {
        reveal_strlit("\"");
    }
    replace_text(json, "\"", "")
}

/// Reads the userinfo answer: `subject` is the `sub` field where it is a
/// string; the other three are the JSON texts of the `given_name`,
/// `family_name` and `email` fields where present. The subject must be a
/// user id, and all three profile fields must be present; their texts are
/// taken without double quotes.
pub fn ory_auth_info(
    subject: Option<&str>,
    given_name_json: Option<&str>,
    family_name_json: Option<&str>,
    email_json: Option<&str>,
    access_token: String,
) -> (r: Result<OryAuthInfo, OryUserinfoError>)
    ensures
        match subject {
            None => r == Err::<OryAuthInfo, OryUserinfoError>(OryUserinfoError::BadSubject),
            Some(sub) => match uuid_parse(sub@) {
                None => r == Err::<OryAuthInfo, OryUserinfoError>(OryUserinfoError::BadSubject),
                Some(id) => match (given_name_json, family_name_json, email_json) {
                    (Some(g), Some(f), Some(e)) => r matches Ok(info)
                        && info.user_id == id
                        && info.access_token == access_token
                        && info.first_name@ == unquoted(g@)
                        && info.last_name@ == unquoted(f@)
                        && info.email@ == unquoted(e@),
                    _ => r == Err::<OryAuthInfo, OryUserinfoError>(OryUserinfoError::MissingProfile),
                },
            },
        },
{
    let user_id = match subject {
        None => return Err(OryUserinfoError::BadSubject),
        Some(sub) => match parse_uuid(sub) {
            None => return Err(OryUserinfoError::BadSubject),
            Some(id) => id,
        },
    };
    match (given_name_json, family_name_json, email_json) {
        (Some(g), Some(f), Some(e)) => Ok(OryAuthInfo {
            user_id,
            access_token,
            first_name: unquote(g),
            last_name: unquote(f),
            email: unquote(e),
        }),
        _ => Err(OryUserinfoError::MissingProfile),
    }
}

/// What parsing gives back of a formatted id.
pub fn parse_member_id(s: &str) -> (r: Option<u128>)
    ensures
        r == uuid_parse(s@),
        forall|id: u128| s@ == id_text(id) ==> r == Some(id),
{
    parse_uuid(s)
}

/// What the userinfo answer holds: the `sub` member where it is a string,
/// and the JSON texts of the `given_name`, `family_name` and `email` members
/// where they are present.
#[derive(Debug)]
pub struct UserinfoFields {
    pub sub: Option<String>,
    pub given_name_json: Option<String>,
    pub family_name_json: Option<String>,
    pub email_json: Option<String>,
}

pub open spec fn userinfo_fields_view(f: UserinfoFields) -> (Option<Seq<char>>, Option<Seq<char>>, Option<Seq<char>>, Option<Seq<char>>) {
    (text_view(f.sub), text_view(f.given_name_json), text_view(f.family_name_json), text_view(f.email_json))
}

/// What `serde_json::from_str::<serde_json::Value>` makes of a userinfo
/// answer, read as `UserinfoFields` are (`Value::as_str` for `sub`, the
/// `Display` text of `Value` for the others): `None` where the answer is not
/// JSON. A function of the answer's text alone.
pub uninterp spec fn userinfo_json_fields(body: Seq<char>) -> Option<(Option<Seq<char>>, Option<Seq<char>>, Option<Seq<char>>, Option<Seq<char>>)>;

/// Parses the userinfo answer with `serde_json::from_str` and reads its
/// members with `Value::get`, `Value::as_str` and `Value`'s `Display`. The
/// contract claims that the result is the one `userinfo_json_fields` names.
#[verifier::external_body]
fn read_userinfo(body: &str) -> (r: Option<UserinfoFields>)
    ensures
        match r {
            None => userinfo_json_fields(body@) is None,
            Some(f) => userinfo_json_fields(body@) == Some(userinfo_fields_view(f)),
        },
{
    match serde_json::from_str::<serde_json::Value>(body) {
        Err(_) => None,
        Ok(v) => Some(UserinfoFields {
            sub: v.get("sub").and_then(|s| s.as_str()).map(|s| s.to_string()),
            given_name_json: v.get("given_name").map(|s| s.to_string()),
            family_name_json: v.get("family_name").map(|s| s.to_string()),
            email_json: v.get("email").map(|s| s.to_string()),
        }),
    }
}

fn as_text(s: &Option<String>) -> (r: Option<&str>)
    ensures
        match r {
            Some(t) => s matches Some(u) && t@ == u@,
            None => s is None,
        },
{
    match s {
        Some(u) => Some(u.as_str()),
        None => None,
    }
}

/// Reads the Ory userinfo answer `body` into the identity of the bearer of
/// `access_token`: an answer that is not JSON is `BadResponse`; otherwise
/// as `ory_auth_info` reads the subject and the profile texts.
pub fn ory_userinfo(body: &str, access_token: String) -> (r: Result<OryAuthInfo, OryUserinfoError>)
    ensures
        match userinfo_json_fields(body@) {
            None => r == Err::<OryAuthInfo, OryUserinfoError>(OryUserinfoError::BadResponse),
            Some((sub, given, family, email)) => match sub {
                None => r == Err::<OryAuthInfo, OryUserinfoError>(OryUserinfoError::BadSubject),
                Some(su) => match uuid_parse(su) {
                    None => r == Err::<OryAuthInfo, OryUserinfoError>(OryUserinfoError::BadSubject),
                    Some(id) => match (given, family, email) {
                        (Some(g), Some(f), Some(e)) => r matches Ok(info)
                            && info.user_id == id
                            && info.access_token == access_token
                            && info.first_name@ == unquoted(g)
                            && info.last_name@ == unquoted(f)
                            && info.email@ == unquoted(e),
                        _ => r == Err::<OryAuthInfo, OryUserinfoError>(OryUserinfoError::MissingProfile),
                    },
                },
            },
        },
{
    match read_userinfo(body) {
        None => Err(OryUserinfoError::BadResponse),
        Some(f) => ory_auth_info(
            as_text(&f.sub),
            as_text(&f.given_name_json),
            as_text(&f.family_name_json),
            as_text(&f.email_json),
            access_token,
        ),
    }
}

} // verus!
