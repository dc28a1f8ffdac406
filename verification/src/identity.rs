//! The identity-provider side: Auth0 subject ids, Keycloak and Auth0 URLs,
//! the admin-token cache, role lookups, and who a bearer token belongs to.
use vstd::prelude::*;
use vstd::string::*;
use crate::error::ServiceError;
use crate::model::AuthInfo;
use crate::text::{replace_all, replace_text, same_text};

verus! {

// ---------------------------------------------------------------------------
// Auth0 subject ids
// ---------------------------------------------------------------------------

/// `s` holds exactly one `|`, at position `p`.
pub open spec fn single_bar_at(s: Seq<char>, p: int) -> bool {
    &&& 0 <= p < s.len()
    &&& s[p] == '|'
    &&& forall|j: int| 0 <= j < s.len() && j != p ==> s[j] != '|'
}

/// Splits an Auth0 subject such as `auth0|abc` into the provider name (the
/// part before the `|`) and the provider user id (the whole subject). A
/// subject that does not hold exactly one `|` is `InvalidAuth0UserId`.
pub fn parse_auth0_user_id(auth0_id: &str) -> (r: Result<(String, String), ServiceError>)
    ensures
        r is Ok <==> exists|p: int| single_bar_at(auth0_id@, p),
        match r {
            Ok((name, id)) => id@ == auth0_id@ && exists|p: int|
                single_bar_at(auth0_id@, p) && name@ == auth0_id@.take(p),
            Err(e) => e == ServiceError::InvalidAuth0UserId,
        },
{
    let n = auth0_id.unicode_len();
    let mut bars: usize = 0;
    let mut first: usize = 0;
    let mut i: usize = 0;
    while i < n
        invariant
            n == auth0_id@.len(),
            i <= n,
            bars <= i,
            bars == 0 ==> forall|j: int| 0 <= j < i ==> auth0_id@[j] != '|',
            bars >= 1 ==> first < i && auth0_id@[first as int] == '|'
                && forall|j: int| 0 <= j < first ==> auth0_id@[j] != '|',
            bars == 1 ==> forall|j: int| 0 <= j < i && j != first ==> auth0_id@[j] != '|',
            bars >= 2 ==> exists|j: int| 0 <= j < i && j != first && auth0_id@[j] == '|',
        decreases n - i,
    {
        if auth0_id.get_char(i) == '|' {
            if bars == 0 {
                first = i;
            }
            if bars < 2 {
                bars = bars + 1;
            }
        }
        i += 1;
    }
    if bars != 1 {
        proof {
            if bars >= 2 {
                let j = choose|j: int| 0 <= j < n && j != first && auth0_id@[j] == '|';
                assert forall|p: int| !single_bar_at(auth0_id@, p) by {
                    if single_bar_at(auth0_id@, p) {
                        assert(p == first);
                        assert(p == j);
                    }
                }
            }
        }
        return Err(ServiceError::InvalidAuth0UserId);
    }
    let name = auth0_id.substring_char(0, first);
    assert(single_bar_at(auth0_id@, first as int));
    Ok((String::from_str(name), String::from_str(auth0_id)))
}

/// Escapes the `|` of an Auth0 user id for use in a URL path.
pub fn encode_user_id(user_id: &str) -> (r: String)
    ensures
        r@ == replace_all(user_id@, "|"@, "%7C"@),
{
    proof {
        reveal_strlit("|");
    }
    replace_text(user_id, "|", "%7C")
}

/// The display name Auth0 is given for a new user: first and last name
/// separated by a space.
pub fn full_display_name(first_name: &str, last_name: &str) -> (r: String)
    ensures
        r@ == first_name@ + " "@ + last_name@,
{
    String::from_str(first_name).concat(" ").concat(last_name)
}

/// The display name sent with an Auth0 profile update: present only where
/// both names are given.
pub fn update_display_name(first_name: Option<&str>, last_name: Option<&str>) -> (r: Option<String>)
    ensures
        match (first_name, last_name) {
            (Some(f), Some(l)) => r matches Some(n) && n@ == f@ + " "@ + l@,
            _ => r is None,
        },
{
    match (first_name, last_name) {
        (Some(f), Some(l)) => Some(full_display_name(f, l)),
        _ => None,
    }
}

// ---------------------------------------------------------------------------
// URLs
// ---------------------------------------------------------------------------

/// The Keycloak OpenID Connect endpoint `path` of `realm`.
pub fn oidc_url(base_url: &str, realm: &str, path: &str) -> (r: String)
    ensures
        r@ == base_url@ + "/realms/"@ + realm@ + "/protocol/openid-connect/"@ + path@,
{
    String::from_str(base_url).concat("/realms/").concat(realm).concat("/protocol/openid-connect/").concat(path)
}

/// The Keycloak admin endpoint `path` of `realm`.
pub fn admin_url(base_url: &str, realm: &str, path: &str) -> (r: String)
    ensures
        r@ == base_url@ + "/admin/realms/"@ + realm@ + "/"@ + path@,
{
    String::from_str(base_url).concat("/admin/realms/").concat(realm).concat("/").concat(path)
}

/// The issuer that a Keycloak token of `realm` must name.
pub fn token_issuer(base_url: &str, realm: &str) -> (r: String)
    ensures
        r@ == base_url@ + "/realms/"@ + realm@,
{
    String::from_str(base_url).concat("/realms/").concat(realm)
}

/// The Auth0 base URL of a tenant domain.
pub fn auth0_base_url(domain: &str) -> (r: String)
    ensures
        r@ == "https://"@ + domain@,
{
    String::from_str("https://").concat(domain)
}

/// The Auth0 management API URL of a user, with the user id escaped.
pub fn auth0_user_url(base_url: &str, user_id: &str) -> (r: String)
    ensures
        r@ == base_url@ + "/api/v2/users/"@ + replace_all(user_id@, "|"@, "%7C"@),
{
    let encoded = encode_user_id(user_id);
    String::from_str(base_url).concat("/api/v2/users/").concat(encoded.as_str())
}

/// The Auth0 management API URL of a user's roles.
pub fn auth0_user_roles_url(base_url: &str, user_id: &str) -> (r: String)
    ensures
        r@ == base_url@ + "/api/v2/users/"@ + replace_all(user_id@, "|"@, "%7C"@) + "/roles"@,
{
    auth0_user_url(base_url, user_id).concat("/roles")
}

/// The id that Keycloak gave a new user: the last `/`-separated segment of
/// the `Location` header of its answer. A missing header is `IdpError`.
pub open spec fn last_segment(s: Seq<char>) -> Seq<char>
    decreases s.len(),
{
    if s.len() == 0 {
        s
    } else if s.last() == '/' {
        Seq::empty()
    } else {
        last_segment(s.drop_last()).push(s.last())
    }
}

pub fn user_id_from_location(location: Option<&str>) -> (r: Result<String, ServiceError>)
    ensures
        match location {
            Some(loc) => r matches Ok(id) && id@ == last_segment(loc@),
            None => r == Err::<String, ServiceError>(ServiceError::IdpError),
        },
{
    match location {
        None => Err(ServiceError::IdpError),
        Some(loc) => {
            let n = loc.unicode_len();
            let mut start: usize = n;
            proof {
                assert(loc@.take(n as int) =~= loc@);
            }
            while start > 0 && loc.get_char(start - 1) != '/'
                invariant
                    n == loc@.len(),
                    start <= n,
                    last_segment(loc@) == last_segment(loc@.take(start as int)) + loc@.subrange(start as int, n as int),
                decreases start,
            {
                proof {
                    let t = loc@.take(start as int);
                    assert(t.drop_last() =~= loc@.take(start - 1));
                    assert(t.last() == loc@[start - 1]);
                    assert(loc@.subrange(start - 1, n as int) =~= seq![loc@[start - 1]] + loc@.subrange(start as int, n as int));
                    assert(last_segment(t) == last_segment(t.drop_last()).push(t.last()));
                    assert(last_segment(loc@.take(start - 1)).push(loc@[start - 1]) + loc@.subrange(start as int, n as int)
                        =~= last_segment(loc@.take(start - 1)) + loc@.subrange(start - 1, n as int));
                }
                start = start - 1;
            }
            proof {
                let t = loc@.take(start as int);
                if start > 0 {
                    assert(t.last() == '/');
                }
                assert(last_segment(t) =~= Seq::<char>::empty());
                assert(last_segment(loc@) =~= loc@.subrange(start as int, n as int));
            }
            let seg = loc.substring_char(start, n);
            Ok(String::from_str(seg))
        },
    }
}

// ---------------------------------------------------------------------------
// Cached tokens
// ---------------------------------------------------------------------------

/// How long before its expiry a cached token is no longer handed out, in
/// milliseconds.
pub const TOKEN_REFRESH_MARGIN_MS: u64 = 60_000;

/// How long a fetched key set is trusted, in milliseconds.
pub const JWKS_MAX_AGE_MS: u64 = 3_600_000;

/// A token together with when it expires, in milliseconds on a monotonic
/// clock.
#[derive(Debug)]
pub struct CachedToken {
    pub access_token: String,
    pub expires_at_ms: u64,
}

/// The single-slot cache of the identity provider's admin token.
#[derive(Debug)]
pub struct TokenCache {
    pub slot: Option<CachedToken>,
}

/// A cached token is still handed out if it expires more than the refresh
/// margin after `now_ms`.
pub open spec fn token_usable(expires_at_ms: u64, now_ms: u64) -> bool {
    expires_at_ms > now_ms + TOKEN_REFRESH_MARGIN_MS
}

/// The expiry of a token fetched at `now_ms` that is valid for
/// `expires_in_secs` seconds, saturating at the clock's end.
pub open spec fn expiry_of(now_ms: u64, expires_in_secs: u64) -> u64 {
    if now_ms + expires_in_secs * 1000 > u64::MAX { u64::MAX } else { (now_ms + expires_in_secs * 1000) as u64 }
}

impl TokenCache {
    pub fn new() -> (c: TokenCache)
        ensures
            c.slot is None,
    {
        TokenCache { slot: None }
    }

    /// The cached token, if it is still usable at `now_ms`; `None` means a
    /// new token must be fetched.
    pub fn lookup(&self, now_ms: u64) -> (r: Option<String>)
        ensures
            match self.slot {
                Some(t) => if token_usable(t.expires_at_ms, now_ms) {
                    r == Some(t.access_token)
                } else {
                    r is None
                },
                None => r is None,
            },
    {
        match &self.slot {
            Some(t) => if t.expires_at_ms > now_ms && t.expires_at_ms - now_ms > TOKEN_REFRESH_MARGIN_MS {
                Some(t.access_token.clone())
            } else {
                None
            },
            None => None,
        }
    }

    /// Stores a token that was fetched at `now_ms` and is valid for
    /// `expires_in_secs` seconds.
    pub fn store(&mut self, access_token: String, expires_in_secs: u64, now_ms: u64)
        ensures
            final(self).slot == Some(CachedToken { access_token, expires_at_ms: expiry_of(now_ms, expires_in_secs) }),
    {
        let span: u64 = if expires_in_secs > u64::MAX / 1000 { u64::MAX } else { expires_in_secs * 1000 };
        let expires_at_ms = if span > u64::MAX - now_ms { u64::MAX } else { now_ms + span };
        self.slot = Some(CachedToken { access_token, expires_at_ms });
    }
}

/// What is stored is read back: a token that is valid for more than the
/// refresh margin is handed out at the time it was stored, and a token is
/// never handed out once less than the margin remains.
pub proof fn law_token_cache_read_after_write(access_token: String, expires_in_secs: u64, now_ms: u64, later_ms: u64)
    ensures
        expires_in_secs * 1000 > TOKEN_REFRESH_MARGIN_MS && now_ms + expires_in_secs * 1000 <= u64::MAX
            ==> token_usable(expiry_of(now_ms, expires_in_secs), now_ms),
        expiry_of(now_ms, expires_in_secs) <= later_ms + TOKEN_REFRESH_MARGIN_MS
            ==> !token_usable(expiry_of(now_ms, expires_in_secs), later_ms),
{
}

/// Whether a key set fetched at `fetched_at_ms` may still be used at
/// `now_ms`: while less than its maximum age has passed (no time has passed
/// if the clock reads earlier).
pub fn jwks_fresh(fetched_at_ms: u64, now_ms: u64) -> (r: bool)
    ensures
        r == (now_ms <= fetched_at_ms || now_ms - fetched_at_ms < JWKS_MAX_AGE_MS),
{
    now_ms <= fetched_at_ms || now_ms - fetched_at_ms < JWKS_MAX_AGE_MS
}

// ---------------------------------------------------------------------------
// Roles at the identity provider
// ---------------------------------------------------------------------------

/// Whether one of the role names a user holds is `role_name`.
pub fn has_role_named(roles: &Vec<String>, role_name: &str) -> (r: bool)
    ensures
        r == exists|i: int| 0 <= i < roles@.len() && (#[trigger] roles@[i])@ == role_name@,
{
    let mut i: usize = 0;
    while i < roles.len()
        invariant
            i <= roles.len(),
            forall|j: int| 0 <= j < i ==> (#[trigger] roles@[j])@ != role_name@,
        decreases roles.len() - i,
    {
        if same_text(roles[i].as_str(), role_name) {
            return true;
        }
        i += 1;
    }
    false
}

/// The id of the last role in `roles` (pairs of name and id, as Auth0 lists
/// them) that is named `role_name`.
pub open spec fn last_role_id(roles: Seq<(String, String)>, role_name: Seq<char>) -> Option<String>
    decreases roles.len(),
{
    if roles.len() == 0 {
        None
    } else if roles.last().0@ == role_name {
        Some(roles.last().1)
    } else {
        last_role_id(roles.drop_last(), role_name)
    }
}

pub fn find_role_id(roles: &Vec<(String, String)>, role_name: &str) -> (r: Option<String>)
    ensures
        r == last_role_id(roles@, role_name@),
{
    let mut result: Option<String> = None;
    let mut i: usize = 0;
    proof {
        assert(roles@.take(0) =~= Seq::<(String, String)>::empty());
    }
    while i < roles.len()
        invariant
            i <= roles.len(),
            result == last_role_id(roles@.take(i as int), role_name@),
        decreases roles.len() - i,
    {
        proof {
            assert(roles@.take(i + 1).drop_last() =~= roles@.take(i as int));
            assert(roles@.take(i + 1).last() == roles@[i as int]);
        }
        if same_text(roles[i].0.as_str(), role_name) {
            result = Some(roles[i].1.clone());
        }
        i += 1;
    }
    proof {
        assert(roles@.take(roles@.len() as int) =~= roles@);
    }
    result
}

/// The outcome of asking Keycloak for a role by name: `None` for a 404,
/// `IdpError` for any other failure or an answer that cannot be read, the
/// role's id otherwise.
pub fn keycloak_role_lookup(status: u16, role_id: Option<String>) -> (r: Result<Option<String>, ServiceError>)
    ensures
        status == 404 ==> r == Ok::<Option<String>, ServiceError>(None),
        status != 404 && !(200 <= status <= 299) ==> r == Err::<Option<String>, ServiceError>(ServiceError::IdpError),
        status != 404 && 200 <= status <= 299 ==> match role_id {
            Some(id) => r == Ok::<Option<String>, ServiceError>(Some(id)),
            None => r == Err::<Option<String>, ServiceError>(ServiceError::IdpError),
        },
{
    if status == 404 {
        Ok(None)
    } else if status < 200 || status > 299 {
        Err(ServiceError::IdpError)
    } else {
        match role_id {
            Some(id) => Ok(Some(id)),
            None => Err(ServiceError::IdpError),
        }
    }
}

/// Whether a role change goes to the identity provider: granting a role
/// that the provider does not know is `NotFound`, taking away such a role
/// is done at once; otherwise the role id to send.
pub fn role_change_target(role_id: Option<String>, granting: bool) -> (r: Result<Option<String>, ServiceError>)
    ensures
        match role_id {
            Some(id) => r == Ok::<Option<String>, ServiceError>(Some(id)),
            None => if granting {
                r == Err::<Option<String>, ServiceError>(ServiceError::NotFound)
            } else {
                r == Ok::<Option<String>, ServiceError>(None)
            },
        },
{
    match role_id {
        Some(id) => Ok(Some(id)),
        None => if granting { Err(ServiceError::NotFound) } else { Ok(None) },
    }
}

// ---------------------------------------------------------------------------
// Who a token belongs to
// ---------------------------------------------------------------------------

/// What the identity provider says of the bearer of a token.
#[derive(Debug)]
pub struct Claims {
    pub sub: String,
    pub email: Option<String>,
    pub given_name: Option<String>,
    pub family_name: Option<String>,
}

/// An optional text, or the empty text.
pub open spec fn text_or_empty(s: Option<String>) -> Seq<char> {
    match s {
        Some(t) => t@,
        None => Seq::empty(),
    }
}

fn unwrap_text(s: Option<String>) -> (r: String)
    ensures
        r@ == text_or_empty(s),
{
    match s {
        Some(t) => t,
        None => String::new(),
    }
}

/// Where resolving the member behind an identity-provider account stands.
#[derive(Debug)]
pub enum ResolveUserStep {
    /// Look up the mapping of `provider_name`/`provider_user_id`.
    FindMapping,
    /// Store a new mapping to `fresh_user_id`.
    CreateMapping,
    Done(Result<u128, ServiceError>),
}

#[derive(Debug)]
pub enum ResolveUserEvent {
    /// The mapped user id if there is one; `Err` where the lookup failed.
    MappingFound(Result<Option<u128>, ()>),
    MappingCreated(bool),
}

/// Finding the internal user id of a provider account, creating the
/// mapping with a freshly drawn id on first sight.
#[derive(Debug)]
pub struct ResolveUserFlow {
    pub provider_name: String,
    pub provider_user_id: String,
    pub fresh_user_id: u128,
    pub step: ResolveUserStep,
}

impl ResolveUserFlow {
    pub fn start(provider_name: String, provider_user_id: String, fresh_user_id: u128) -> (f: ResolveUserFlow)
        ensures
            f.provider_name == provider_name,
            f.provider_user_id == provider_user_id,
            f.fresh_user_id == fresh_user_id,
            f.step is FindMapping,
    {
        ResolveUserFlow { provider_name, provider_user_id, fresh_user_id, step: ResolveUserStep::FindMapping }
    }

    pub open spec fn next(self, e: ResolveUserEvent) -> ResolveUserFlow {
        match (self.step, e) {
            (ResolveUserStep::FindMapping, ResolveUserEvent::MappingFound(Err(()))) =>
                ResolveUserFlow { step: ResolveUserStep::Done(Err(ServiceError::DatabaseError)), ..self },
            (ResolveUserStep::FindMapping, ResolveUserEvent::MappingFound(Ok(Some(id)))) =>
                ResolveUserFlow { step: ResolveUserStep::Done(Ok(id)), ..self },
            (ResolveUserStep::FindMapping, ResolveUserEvent::MappingFound(Ok(None))) =>
                ResolveUserFlow { step: ResolveUserStep::CreateMapping, ..self },
            (ResolveUserStep::CreateMapping, ResolveUserEvent::MappingCreated(ok)) => if ok {
                ResolveUserFlow { step: ResolveUserStep::Done(Ok(self.fresh_user_id)), ..self }
            } else {
                ResolveUserFlow { step: ResolveUserStep::Done(Err(ServiceError::DatabaseError)), ..self }
            },
            (step, _) => ResolveUserFlow { step, ..self },
        }
    }

    pub fn advance(self, e: ResolveUserEvent) -> (r: ResolveUserFlow)
        ensures
            r == self.next(e),
    {
        let ResolveUserFlow { provider_name, provider_user_id, fresh_user_id, step } = self;
        match (step, e) {
            (ResolveUserStep::FindMapping, ResolveUserEvent::MappingFound(Err(()))) =>
                ResolveUserFlow { provider_name, provider_user_id, fresh_user_id, step: ResolveUserStep::Done(Err(ServiceError::DatabaseError)) },
            (ResolveUserStep::FindMapping, ResolveUserEvent::MappingFound(Ok(Some(id)))) =>
                ResolveUserFlow { provider_name, provider_user_id, fresh_user_id, step: ResolveUserStep::Done(Ok(id)) },
            (ResolveUserStep::FindMapping, ResolveUserEvent::MappingFound(Ok(None))) =>
                ResolveUserFlow { provider_name, provider_user_id, fresh_user_id, step: ResolveUserStep::CreateMapping },
            (ResolveUserStep::CreateMapping, ResolveUserEvent::MappingCreated(ok)) => if ok {
                ResolveUserFlow { provider_name, provider_user_id, fresh_user_id, step: ResolveUserStep::Done(Ok(fresh_user_id)) }
            } else {
                ResolveUserFlow { provider_name, provider_user_id, fresh_user_id, step: ResolveUserStep::Done(Err(ServiceError::DatabaseError)) }
            },
            (step, _) => ResolveUserFlow { provider_name, provider_user_id, fresh_user_id, step },
        }
    }
}

/// The shape of every id that `uuid::Uuid::new_v4` draws: the version
/// nibble is 4 and the variant bits are `10`.
pub open spec fn is_random_id(id: u128) -> bool {
    &&& (id >> 76u128) & 0xfu128 == 4
    &&& (id >> 62u128) & 0x3u128 == 2
}

/// Draws an id with `uuid::Uuid::new_v4` and reads it as a 128-bit integer.
/// The id is random; the contract claims only what holds of every outcome,
/// the version and variant bits that the function sets over the random
/// bits.
#[verifier::external_body]
pub(crate) fn random_user_id() -> (id: u128)
    ensures
        is_random_id(id),
{
    uuid::Uuid::new_v4().as_u128()
}

impl ResolveUserFlow {
    /// Starts resolving an account, with a freshly drawn id kept for the
    /// case that the account has no mapping yet.
    pub fn begin(provider_name: String, provider_user_id: String) -> (f: ResolveUserFlow)
        ensures
            f.provider_name == provider_name,
            f.provider_user_id == provider_user_id,
            is_random_id(f.fresh_user_id),
            f.step is FindMapping,
    {
        let fresh = random_user_id();
        ResolveUserFlow::start(provider_name, provider_user_id, fresh)
    }
}

/// A known account always resolves to the member it is mapped to, and a
/// new mapping is made only for an account that has none.
pub proof fn law_known_account_keeps_its_member(f: ResolveUserFlow, id: u128)
    requires
        f.step is FindMapping,
    ensures
        f.next(ResolveUserEvent::MappingFound(Ok(Some(id)))).step == ResolveUserStep::Done(Ok::<u128, ServiceError>(id)),
        f.next(ResolveUserEvent::MappingFound(Ok(None))).step is CreateMapping,
{
}

/// An account seen for the first time resolves to the freshly drawn id, and
/// only once its mapping has been stored; a failed lookup or store is a
/// database error.
pub proof fn law_new_account_gets_fresh_id(f: ResolveUserFlow, e: ResolveUserEvent, id: u128)
    ensures
        f.step is CreateMapping ==> {
            &&& f.next(ResolveUserEvent::MappingCreated(true)).step == ResolveUserStep::Done(
                Ok::<u128, ServiceError>(f.fresh_user_id),
            )
            &&& f.next(ResolveUserEvent::MappingCreated(false)).step == ResolveUserStep::Done(
                Err::<u128, ServiceError>(ServiceError::DatabaseError),
            )
        },
        f.step is FindMapping ==> f.next(ResolveUserEvent::MappingFound(Err(()))).step == ResolveUserStep::Done(
            Err::<u128, ServiceError>(ServiceError::DatabaseError),
        ),
        !(f.step is Done) && f.next(e).step == ResolveUserStep::Done(Ok::<u128, ServiceError>(id)) ==> (f.step is FindMapping
            && e == ResolveUserEvent::MappingFound(Ok(Some(id)))) || (f.step is CreateMapping && e
            == ResolveUserEvent::MappingCreated(true) && id == f.fresh_user_id),
{
}

/// The request's identity, built from the token's claims and the resolved
/// user id; a profile field that the provider left out is empty.
pub fn auth_info_from_claims(
    user_id: u128,
    access_token: String,
    claims: Claims,
    provider_name: String,
    provider_user_id: String,
) -> (a: AuthInfo)
    ensures
        a.user_id == user_id,
        a.access_token == access_token,
        a.first_name@ == text_or_empty(claims.given_name),
        a.last_name@ == text_or_empty(claims.family_name),
        a.email@ == text_or_empty(claims.email),
        a.provider_name == provider_name,
        a.provider_user_id == provider_user_id,
{
    AuthInfo {
        user_id,
        access_token,
        first_name: unwrap_text(claims.given_name),
        last_name: unwrap_text(claims.family_name),
        email: unwrap_text(claims.email),
        provider_name,
        provider_user_id,
    }
}

/// The provider account that a Keycloak token names: provider `keycloak`,
/// the token's subject as the provider user id.
pub fn keycloak_account(claims: &Claims) -> (r: (String, String))
    ensures
        r.0@ == "keycloak"@,
        r.1 == claims.sub,
{
    (String::from_str("keycloak"), claims.sub.clone())
}

/// How a token that could not be decoded is reported.
#[derive(Debug, Clone, Copy, PartialEq, Eq, Structural)]
pub enum TokenFailure {
    /// The token's signature has expired.
    Expired,
    /// Anything else: no key id, an unknown key, a bad signature or issuer.
    Invalid,
}

pub fn token_failure_error(f: TokenFailure) -> (e: ServiceError)
    ensures
        f == TokenFailure::Expired ==> e == ServiceError::TokenExpired,
        f == TokenFailure::Invalid ==> e == ServiceError::IdpError,
{
    match f {
        TokenFailure::Expired => ServiceError::TokenExpired,
        TokenFailure::Invalid => ServiceError::IdpError,
    }
}

} // verus!
