//! Checking a Keycloak bearer token: its header must name a key, the key
//! must be one of the realm's published keys, and the signature and the
//! standard claims must hold; the claims are then read into `Claims`.
use vstd::prelude::*;
use vstd::string::*;
use crate::error::ServiceError;
use crate::identity::{token_failure_error, Claims, TokenFailure};
use crate::text::same_text;
use jsonwebtoken::errors::ErrorKind;
use jsonwebtoken::{Algorithm, DecodingKey, Validation};
use serde_json::Value;
use std::collections::HashSet;

verus! {

/// A signing algorithm named in a token header, carried through unread.
#[verifier::external_type_specification]
#[verifier::external_body]
pub struct ExAlgorithm(jsonwebtoken::Algorithm);

/// A published verification key, carried through unread.
#[verifier::external_type_specification]
#[verifier::external_body]
pub struct ExJwk(jsonwebtoken::jwk::Jwk);

/// A key ready to check signatures with, carried through unread.
#[verifier::external_type_specification]
#[verifier::external_body]
pub struct ExDecodingKey(jsonwebtoken::DecodingKey);

/// What `jsonwebtoken::decode_header` reads of a token: `None` where the
/// token has no decodable header, otherwise the header's key id, if any.
pub uninterp spec fn jwt_header_kid(token: Seq<char>) -> Option<Option<Seq<char>>>;

/// An optional text as a plain value.
pub open spec fn text_view(s: Option<String>) -> Option<Seq<char>> {
    match s {
        Some(t) => Some(t@),
        None => None,
    }
}

/// Calls `jsonwebtoken::decode_header`, keeping the header's key id and
/// algorithm. The header depends on the token alone: the contract claims
/// that the key id (or the failure) is the one `jwt_header_kid` names; the
/// algorithm is left unsaid.
#[verifier::external_body]
fn read_header(token: &str) -> (r: Option<(Option<String>, jsonwebtoken::Algorithm)>)
    ensures
        match r {
            None => jwt_header_kid(token@) is None,
            Some((kid, _)) => jwt_header_kid(token@) == Some(text_view(kid)),
        },
{
    jsonwebtoken::decode_header(token).ok().map(|h| (h.kid, h.alg))
}

/// Calls `jsonwebtoken::DecodingKey::from_jwk`; `None` where the key's
/// parameters cannot be read. The key is opaque here, so nothing is claimed
/// of which keys succeed.
#[verifier::external_body]
fn decoding_key(jwk: &jsonwebtoken::jwk::Jwk) -> (r: Option<jsonwebtoken::DecodingKey>)
{
    jsonwebtoken::DecodingKey::from_jwk(jwk).ok()
}

/// What a claims object holds under one name.
#[derive(Debug)]
pub enum ClaimField {
    Missing,
    Null,
    Text(String),
    /// A number, a boolean, an array or an object.
    Other,
}

/// A claim as a plain value: `Some(None)` where it is absent or `null`,
/// `Some(Some(s))` where it is the string `s`, `None` for any other value.
pub open spec fn claim_view(f: ClaimField) -> Option<Option<Seq<char>>> {
    match f {
        ClaimField::Missing => Some(None),
        ClaimField::Null => Some(None),
        ClaimField::Text(s) => Some(Some(s@)),
        ClaimField::Other => None,
    }
}

/// The member `name` of a token's payload, as
/// `jsonwebtoken::decode::<serde_json::Value>` decodes the payload and
/// `serde_json::Value::get` reads the member, in the form of `claim_view`.
/// The payload is the JSON of the token's middle segment: a function of
/// the token alone.
pub uninterp spec fn jwt_claim(token: Seq<char>, name: Seq<char>) -> Option<Option<Seq<char>>>;

/// How a token is checked when it is decoded: the issuer it must name, if
/// any, and whether its expiry and its audience are checked.
#[derive(Debug)]
pub struct DecodeSettings {
    pub issuer: Option<String>,
    pub check_expiry: bool,
    pub check_audience: bool,
}

/// The checks that a bearer token must pass: it names `issuer` and has not
/// expired; its audience is not checked.
pub fn token_checks(issuer: &str) -> (s: DecodeSettings)
    ensures
        s.issuer matches Some(i) && i@ == issuer@,
        s.check_expiry,
        !s.check_audience,
{
    DecodeSettings { issuer: Some(String::from_str(issuer)), check_expiry: true, check_audience: false }
}

/// Reading the claims of a token whose signature holds, whatever its
/// issuer, expiry or audience.
pub fn claim_reading() -> (s: DecodeSettings)
    ensures
        s.issuer is None,
        !s.check_expiry,
        !s.check_audience,
{
    DecodeSettings { issuer: None, check_expiry: false, check_audience: false }
}

/// Calls `jsonwebtoken::decode::<serde_json::Value>` with a validation for
/// `alg` made from `settings` (the crate's defaults otherwise: an `exp`
/// claim must be present), then reads the members `names` of the decoded
/// payload with `serde_json::Value::get`. An expired signature is
/// `Expired`, any other failure `Invalid`. Whether the token passes depends
/// on the clock and on the opaque key, so that is not claimed. The contract
/// claims what the crate's validation shows of every outcome: the members
/// handed back are the ones `jwt_claim` names; a token that passes with an
/// issuer required and names its issuer as a string names that issuer; and
/// an expired signature is reported only where the expiry is checked.
#[verifier::external_body]
fn decode_claims(
    token: &str,
    key: &DecodingKey,
    alg: Algorithm,
    settings: &DecodeSettings,
    names: &Vec<String>,
) -> (r: Result<Vec<ClaimField>, TokenFailure>)
    ensures
        r matches Ok(fields) ==> fields@.len() == names@.len()
            && forall|i: int| 0 <= i < names@.len() ==> claim_view(#[trigger] fields@[i]) == jwt_claim(token@, names@[i]@),
        r matches Ok(_) && settings.issuer matches Some(i) && jwt_claim(token@, "iss"@) matches Some(Some(t)) ==> t == i@,
        r matches Err(TokenFailure::Expired) ==> settings.check_expiry,
{
    let mut validation = Validation::new(alg);
    validation.iss = settings.issuer.as_ref().map(|i| HashSet::from([i.clone()]));
    validation.validate_exp = settings.check_expiry;
    validation.validate_aud = settings.check_audience;
    match jsonwebtoken::decode::<Value>(token, key, &validation) {
        Ok(data) => Ok(names.iter().map(|n| match data.claims.get(n.as_str()) {
            None => ClaimField::Missing,
            Some(Value::Null) => ClaimField::Null,
            Some(Value::String(s)) => ClaimField::Text(s.clone()),
            Some(_) => ClaimField::Other,
        }).collect()),
        Err(e) => Err(if matches!(e.kind(), ErrorKind::ExpiredSignature) { TokenFailure::Expired } else { TokenFailure::Invalid }),
    }
}

/// How an optional text claim reads: absent and `null` are no value, a
/// string is that value, anything else cannot be read (`None`).
pub open spec fn optional_claim(f: ClaimField) -> Option<Option<String>> {
    match f {
        ClaimField::Missing => Some(None),
        ClaimField::Null => Some(None),
        ClaimField::Text(s) => Some(Some(s)),
        ClaimField::Other => None,
    }
}

fn read_optional(f: ClaimField) -> (r: Result<Option<String>, ()>)
    ensures
        match optional_claim(f) {
            Some(v) => r == Ok::<Option<String>, ()>(v),
            None => r is Err,
        },
{
    match f {
        ClaimField::Missing => Ok(None),
        ClaimField::Null => Ok(None),
        ClaimField::Text(s) => Ok(Some(s)),
        ClaimField::Other => Err(()),
    }
}

/// The claims as plain values: subject, e-mail address, given name and
/// family name.
pub open spec fn claims_view(c: Claims) -> (Seq<char>, Option<Seq<char>>, Option<Seq<char>>, Option<Seq<char>>) {
    (c.sub@, text_view(c.email), text_view(c.given_name), text_view(c.family_name))
}

/// The claims that the four members read as: the subject must be a string,
/// the others absent, `null` or strings; `None` otherwise.
pub open spec fn read_claims(
    sub: Option<Option<Seq<char>>>,
    email: Option<Option<Seq<char>>>,
    given_name: Option<Option<Seq<char>>>,
    family_name: Option<Option<Seq<char>>>,
) -> Option<(Seq<char>, Option<Seq<char>>, Option<Seq<char>>, Option<Seq<char>>)> {
    match (sub, email, given_name, family_name) {
        (Some(Some(s)), Some(e), Some(g), Some(f)) => Some((s, e, g, f)),
        _ => None,
    }
}

/// The claims that a token's payload carries, where they can be read.
pub open spec fn claims_of_token(token: Seq<char>) -> Option<(Seq<char>, Option<Seq<char>>, Option<Seq<char>>, Option<Seq<char>>)> {
    read_claims(
        jwt_claim(token, "sub"@),
        jwt_claim(token, "email"@),
        jwt_claim(token, "given_name"@),
        jwt_claim(token, "family_name"@),
    )
}

/// The claims of a token from its `sub`, `email`, `given_name` and
/// `family_name` members: the subject must be a string, the others may be
/// absent or `null`, but must otherwise be strings. Claims that cannot be
/// read are `IdpError`.
pub fn claims_from_fields(sub: ClaimField, email: ClaimField, given_name: ClaimField, family_name: ClaimField) -> (r: Result<Claims, ServiceError>)
    ensures
        match (sub, optional_claim(email), optional_claim(given_name), optional_claim(family_name)) {
            (ClaimField::Text(s), Some(e), Some(g), Some(f)) => r matches Ok(c)
                && c.sub == s && c.email == e && c.given_name == g && c.family_name == f,
            _ => r == Err::<Claims, ServiceError>(ServiceError::IdpError),
        },
        match read_claims(claim_view(sub), claim_view(email), claim_view(given_name), claim_view(family_name)) {
            Some(v) => r matches Ok(c) && claims_view(c) == v,
            None => r == Err::<Claims, ServiceError>(ServiceError::IdpError),
        },
{
    let sub = match sub {
        ClaimField::Text(s) => s,
        _ => return Err(ServiceError::IdpError),
    };
    let email = match read_optional(email) {
        Ok(v) => v,
        Err(()) => return Err(ServiceError::IdpError),
    };
    let given_name = match read_optional(given_name) {
        Ok(v) => v,
        Err(()) => return Err(ServiceError::IdpError),
    };
    let family_name = match read_optional(family_name) {
        Ok(v) => v,
        Err(()) => return Err(ServiceError::IdpError),
    };
    Ok(Claims { sub, email, given_name, family_name })
}

/// One of the realm's published keys, with the key id it is published
/// under.
#[derive(Debug)]
pub struct VerificationKey {
    pub key_id: Option<String>,
    pub jwk: jsonwebtoken::jwk::Jwk,
}

/// Whether a published key carries the key id `kid`.
pub open spec fn key_matches(k: VerificationKey, kid: Seq<char>) -> bool {
    k.key_id matches Some(id) && id@ == kid
}

/// The first published key that carries the key id `kid` (as
/// `jsonwebtoken::jwk::JwkSet::find` chooses it).
pub fn find_key_index(keys: &Vec<VerificationKey>, kid: &str) -> (r: Option<usize>)
    ensures
        match r {
            Some(i) => i < keys@.len() && key_matches(keys@[i as int], kid@)
                && forall|j: int| 0 <= j < i ==> !key_matches(#[trigger] keys@[j], kid@),
            None => forall|j: int| 0 <= j < keys@.len() ==> !key_matches(#[trigger] keys@[j], kid@),
        },
{
    let mut i: usize = 0;
    while i < keys.len()
        invariant
            i <= keys@.len(),
            forall|j: int| 0 <= j < i ==> !key_matches(#[trigger] keys@[j], kid@),
        decreases keys.len() - i,
    {
        let hit = match &keys[i].key_id {
            Some(id) => same_text(id.as_str(), kid),
            None => false,
        };
        if hit {
            return Some(i);
        }
        i += 1;
    }
    None
}

/// The key id and algorithm of a token's header. A token without a
/// decodable header, or whose header names no key, is `IdpError`; this is
/// decided before any key is fetched.
pub fn token_key_id(token: &str) -> (r: Result<(String, jsonwebtoken::Algorithm), ServiceError>)
    ensures
        match jwt_header_kid(token@) {
            Some(Some(k)) => r matches Ok((kid, _)) && kid@ == k,
            _ => r == Err::<(String, jsonwebtoken::Algorithm), ServiceError>(ServiceError::IdpError),
        },
{
    match read_header(token) {
        Some((Some(kid), alg)) => Ok((kid, alg)),
        _ => Err(ServiceError::IdpError),
    }
}

/// The names of the members that a token's claims are read from.
fn claim_names() -> (v: Vec<String>)
    ensures
        v@.len() == 4,
        v@[0]@ == "sub"@,
        v@[1]@ == "email"@,
        v@[2]@ == "given_name"@,
        v@[3]@ == "family_name"@,
{
    let mut v: Vec<String> = Vec::new();
    v.push(String::from_str("sub"));
    v.push(String::from_str("email"));
    v.push(String::from_str("given_name"));
    v.push(String::from_str("family_name"));
    v
}

/// The claims that a list of members `sub`, `email`, `given_name` and
/// `family_name`, in that order, reads as; `None` for a list of another
/// length.
pub open spec fn fields_claims(fields: Seq<ClaimField>) -> Option<(Seq<char>, Option<Seq<char>>, Option<Seq<char>>, Option<Seq<char>>)> {
    if fields.len() == 4 {
        read_claims(claim_view(fields[0]), claim_view(fields[1]), claim_view(fields[2]), claim_view(fields[3]))
    } else {
        None
    }
}

fn claims_from_list(fields: Vec<ClaimField>) -> (r: Result<Claims, ServiceError>)
    ensures
        match fields_claims(fields@) {
            Some(v) => r matches Ok(c) && claims_view(c) == v,
            None => r == Err::<Claims, ServiceError>(ServiceError::IdpError),
        },
{
    if fields.len() != 4 {
        return Err(ServiceError::IdpError);
    }
    let ghost g = fields@;
    let mut fields = fields;
    let family_name = fields.pop().unwrap();
    let given_name = fields.pop().unwrap();
    let email = fields.pop().unwrap();
    let sub = fields.pop().unwrap();
    assert(sub == g[0] && email == g[1] && given_name == g[2] && family_name == g[3]);
    claims_from_fields(sub, email, given_name, family_name)
}

/// What checking a token comes to, from the outcome `checked` of decoding
/// it with `token_checks` and, where that found the token expired, the
/// outcome `reread` of reading its claims with `claim_reading` (both read
/// `sub`, `email`, `given_name`, `family_name`, in that order). A token
/// that passed gives its claims where they can be read and `IdpError`
/// where not; an expired token gives `TokenExpired` where its claims can
/// be read, `IdpError` otherwise (the claims are read before the expiry
/// counts); any other failure is `IdpError`.
pub fn token_result(
    checked: Result<Vec<ClaimField>, TokenFailure>,
    reread: Option<Result<Vec<ClaimField>, TokenFailure>>,
) -> (r: Result<Claims, ServiceError>)
    ensures
        match checked {
            Ok(f) => match fields_claims(f@) {
                Some(v) => r matches Ok(c) && claims_view(c) == v,
                None => r == Err::<Claims, ServiceError>(ServiceError::IdpError),
            },
            Err(TokenFailure::Invalid) => r == Err::<Claims, ServiceError>(ServiceError::IdpError),
            Err(TokenFailure::Expired) => match reread {
                Some(Ok(f)) => if fields_claims(f@) is Some {
                    r == Err::<Claims, ServiceError>(ServiceError::TokenExpired)
                } else {
                    r == Err::<Claims, ServiceError>(ServiceError::IdpError)
                },
                _ => r == Err::<Claims, ServiceError>(ServiceError::IdpError),
            },
        },
{
    match checked {
        Ok(fields) => claims_from_list(fields),
        Err(TokenFailure::Invalid) => Err(ServiceError::IdpError),
        Err(TokenFailure::Expired) => match reread {
            Some(Ok(fields)) => match claims_from_list(fields) {
                Ok(_) => Err(token_failure_error(TokenFailure::Expired)),
                Err(e) => Err(e),
            },
            _ => Err(ServiceError::IdpError),
        },
    }
}

/// Checks a token against the realm's published keys. The first published
/// key that carries `kid` is used; where there is none, or it cannot be
/// read, the token is refused with `IdpError`. The token is decoded with
/// `token_checks(issuer)` (a valid signature for `alg`, the issuer
/// `issuer`, an unexpired `exp` claim; the audience is not checked) and,
/// where it is found expired, read again with `claim_reading()`; the two
/// outcomes are judged by `token_result`.
pub fn decode_with_keys(
    token: &str,
    kid: &str,
    alg: Algorithm,
    keys: &Vec<VerificationKey>,
    issuer: &str,
) -> (r: Result<Claims, ServiceError>)
    ensures
        (forall|j: int| 0 <= j < keys@.len() ==> !key_matches(#[trigger] keys@[j], kid@))
            ==> r == Err::<Claims, ServiceError>(ServiceError::IdpError),
        r matches Ok(c) ==> claims_of_token(token@) == Some(claims_view(c)),
        r is Ok ==> (jwt_claim(token@, "iss"@) matches Some(Some(t)) ==> t == issuer@),
        r == Err::<Claims, ServiceError>(ServiceError::TokenExpired) ==> claims_of_token(token@) is Some,
        r matches Err(e) ==> e == ServiceError::IdpError || e == ServiceError::TokenExpired,
{
    let i = match find_key_index(keys, kid) {
        Some(i) => i,
        None => return Err(ServiceError::IdpError),
    };
    let key = match decoding_key(&keys[i].jwk) {
        Some(k) => k,
        None => return Err(ServiceError::IdpError),
    };
    let names = claim_names();
    let checks = token_checks(issuer);
    let checked = decode_claims(token, &key, alg, &checks, &names);
    let reread = match checked {
        Err(TokenFailure::Expired) => Some(decode_claims(token, &key, alg, &claim_reading(), &names)),
        _ => None,
    };
    token_result(checked, reread)
}

} // verus!
