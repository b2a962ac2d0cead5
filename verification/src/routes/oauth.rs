//! OAuth authorization: requested scopes, the errors the authorization
//! endpoint answers with, and the parameters it takes.
use vstd::prelude::*;

use crate::opt_view;

use crate::routes::{spec_internal_scope, spec_scope_name, InternalScope};

verus! {

/// What the client asks to receive.
#[derive(Debug, Clone, PartialEq, Eq)]
pub enum ResponseType {
    Code,
    Token,
    Unknown(String),
}

/// How the response is handed back to the client.
#[derive(Debug, Clone, PartialEq, Eq)]
pub enum ResponseMode {
    Query,
    FormPost,
    Fragment,
    Unknown(String),
}

/// The parameters of an authorization request; `other` holds the parameters
/// not named here, as (name, value) pairs.
#[derive(Debug)]
pub struct OAuthAuthorizeParameters {
    pub client_id: String,
    pub response_type: ResponseType,
    pub response_mode: ResponseMode,
    pub redirect_uri: String,
    pub scopes: Vec<String>,
    pub state: Option<String>,
    pub other: Vec<(String, String)>,
}

/// The (name, value) pairs as a map from name to value; a later pair of the
/// same name replaces an earlier one.
pub open spec fn pairs_map(pairs: Seq<(String, String)>) -> Map<Seq<char>, Seq<char>>
    decreases pairs.len(),
{
    if pairs.len() == 0 {
        Map::empty()
    } else {
        pairs_map(pairs.drop_last()).insert(pairs.last().0@, pairs.last().1@)
    }
}

/// The names of (name, value) pairs form the domain of their map.
proof fn lemma_pairs_map_dom(pairs: Seq<(String, String)>)
    ensures
        pairs_map(pairs).dom() == pairs.map_values(|p: (String, String)| p.0@).to_set(),
    decreases pairs.len(),
{
    let names = pairs.map_values(|p: (String, String)| p.0@);
    if pairs.len() > 0 {
        let rest = pairs.drop_last();
        lemma_pairs_map_dom(rest);
        let rest_names = rest.map_values(|p: (String, String)| p.0@);
        assert(names =~= rest_names.push(pairs.last().0@));
        assert forall|k: Seq<char>| pairs_map(pairs).dom().contains(k) <==> names.to_set().contains(k) by {
            if k == pairs.last().0@ {
                assert(names[names.len() - 1] == k);
            } else {
                if rest_names.contains(k) {
                    let i = choose|i: int| 0 <= i < rest_names.len() && rest_names[i] == k;
                    assert(names[i] == k);
                }
                if names.contains(k) {
                    let i = choose|i: int| 0 <= i < names.len() && names[i] == k;
                    assert(i < rest_names.len());
                    assert(rest_names[i] == k);
                }
            }
        }
        assert(pairs_map(pairs).dom() =~= names.to_set());
    } else {
        assert(pairs_map(pairs).dom() =~= names.to_set());
    }
}

impl OAuthAuthorizeParameters {
    /// The names of the other parameters, in order.
    pub open spec fn spec_other_keys(&self) -> Seq<Seq<char>> {
        self.other@.map_values(|p: (String, String)| p.0@)
    }

    /// The other parameters as a map from name to value.
    pub open spec fn other_map(&self) -> Map<Seq<char>, Seq<char>> {
        pairs_map(self.other@)
    }

    /// The names of the other parameters, in order; as a set they are the
    /// names the map of the other parameters holds.
    pub fn other_keys(&self) -> (r: Vec<String>)
        ensures
            r@.map_values(|s: String| s@) == self.spec_other_keys(),
            r@.map_values(|s: String| s@).to_set() == self.other_map().dom(),
    {
        let mut out: Vec<String> = Vec::new();
        let mut i: usize = 0;
        while i < self.other.len()
            invariant
                i <= self.other.len(),
                out@.len() == i,
                out@.map_values(|s: String| s@) == self.spec_other_keys().take(i as int),
            decreases self.other.len() - i,
        {
            out.push(self.other[i].0.clone());
            assert(out@.map_values(|s: String| s@) =~= self.spec_other_keys().take(i + 1));
            i = i + 1;
        }
        assert(self.spec_other_keys().take(self.other.len() as int) =~= self.spec_other_keys());
        proof {
            lemma_pairs_map_dom(self.other@);
        }
        out
    }
}

/// Whether the user gave consent, and to which scopes.
#[derive(Debug, Clone)]
pub struct ConsentInfo {
    pub given: bool,
    pub scopes: Vec<String>,
}

/// Errors that the specification does not name.
#[derive(Debug, Clone, Copy, PartialEq, Eq, Structural)]
pub enum NewErrorNotSpec {
    InvalidClient,
    InvalidRedirectUri,
}

/// Errors common to all endpoints.
#[derive(Debug, Clone, Copy, PartialEq, Eq, Structural)]
pub enum OAuthErrorCommonKind {
    InvalidRequest,
    UnauthorizedClient,
    InvalidScope,
}

/// Errors of the authorization endpoint.
#[derive(Debug, Clone, Copy, PartialEq, Eq, Structural)]
pub enum OAuthErrorAuthorizeKind {
    AccessDenied,
    UnsupportedResponseType,
    ServerError,
    TemporarilyUnavailable,
}

/// Errors of the token endpoint.
#[derive(Debug, Clone, Copy, PartialEq, Eq, Structural)]
pub enum OAuthErrorTokenKind {
    InvalidClient,
    InvalidGrant,
    UnsupportedGrantType,
}

/// An OAuth error.
#[derive(Debug, Clone, Copy, PartialEq, Eq, Structural)]
pub enum OAuthErrorKind {
    Common(OAuthErrorCommonKind),
    Authorize(OAuthErrorAuthorizeKind),
    Token(OAuthErrorTokenKind),
    NotSpec(NewErrorNotSpec),
}

/// The HTTP status an OAuth error is answered with.
pub open spec fn spec_status(kind: OAuthErrorKind) -> u16 {
    match kind {
        OAuthErrorKind::Common(k) => match k {
            OAuthErrorCommonKind::InvalidRequest => 400,
            OAuthErrorCommonKind::UnauthorizedClient => 401,
            OAuthErrorCommonKind::InvalidScope => 400,
        },
        OAuthErrorKind::Authorize(k) => match k {
            OAuthErrorAuthorizeKind::AccessDenied => 403,
            OAuthErrorAuthorizeKind::UnsupportedResponseType => 400,
            OAuthErrorAuthorizeKind::ServerError => 500,
            OAuthErrorAuthorizeKind::TemporarilyUnavailable => 503,
        },
        OAuthErrorKind::Token(_) => 401,
        OAuthErrorKind::NotSpec(k) => match k {
            NewErrorNotSpec::InvalidClient => 401,
            NewErrorNotSpec::InvalidRedirectUri => 400,
        },
    }
}

impl OAuthErrorKind {
    /// The status the error is answered with when it has no redirect address.
    pub fn status(&self) -> (r: u16)
        ensures
            r == spec_status(*self),
    {
        match self {
            OAuthErrorKind::Common(kind) => match kind {
                OAuthErrorCommonKind::InvalidRequest => 400,
                OAuthErrorCommonKind::UnauthorizedClient => 401,
                OAuthErrorCommonKind::InvalidScope => 400,
            },
            OAuthErrorKind::Authorize(kind) => match kind {
                OAuthErrorAuthorizeKind::AccessDenied => 403,
                OAuthErrorAuthorizeKind::UnsupportedResponseType => 400,
                OAuthErrorAuthorizeKind::ServerError => 500,
                OAuthErrorAuthorizeKind::TemporarilyUnavailable => 503,
            },
            OAuthErrorKind::Token(kind) => match kind {
                OAuthErrorTokenKind::InvalidClient => 401,
                OAuthErrorTokenKind::InvalidGrant => 401,
                OAuthErrorTokenKind::UnsupportedGrantType => 401,
            },
            OAuthErrorKind::NotSpec(kind) => match kind {
                NewErrorNotSpec::InvalidClient => 401,
                NewErrorNotSpec::InvalidRedirectUri => 400,
            },
        }
    }
}

/// An OAuth error as the authorization endpoint answers it: sent to the
/// client's redirect address when there is one, and as the response body
/// otherwise. The redirect address is held as text.
#[derive(Debug, Clone)]
pub struct NewError {
    pub state: Option<String>,
    pub description: Option<String>,
    pub kind: OAuthErrorKind,
    pub error_uri: Option<String>,
    pub redirect_uri: Option<String>,
}

impl NewError {
    pub fn new(
        kind: OAuthErrorKind,
        description: Option<String>,
        state: Option<String>,
        error_uri: Option<String>,
        redirect_uri: Option<String>,
    ) -> (r: Self)
        ensures
            r.kind == kind,
            r.description == description,
            r.state == state,
            r.error_uri == error_uri,
            r.redirect_uri == redirect_uri,
    {
        Self { state, description, kind, error_uri, redirect_uri }
    }

    pub fn invalid_client(description: Option<String>, state: Option<String>, error_uri: Option<String>) -> (r:
        Self)
        ensures
            r == NewError::spec_new(
                OAuthErrorKind::NotSpec(NewErrorNotSpec::InvalidClient),
                description,
                state,
                error_uri,
                None,
            ),
    {
        Self::new(
            OAuthErrorKind::NotSpec(NewErrorNotSpec::InvalidClient),
            description,
            state,
            error_uri,
            None,
        )
    }

    pub fn invalid_redirect_uri(
        description: Option<String>,
        state: Option<String>,
        error_uri: Option<String>,
    ) -> (r: Self)
        ensures
            r == NewError::spec_new(
                OAuthErrorKind::NotSpec(NewErrorNotSpec::InvalidRedirectUri),
                description,
                state,
                error_uri,
                None,
            ),
    {
        Self::new(
            OAuthErrorKind::NotSpec(NewErrorNotSpec::InvalidRedirectUri),
            description,
            state,
            error_uri,
            None,
        )
    }

    pub fn invalid_request(
        description: Option<String>,
        state: Option<String>,
        error_uri: Option<String>,
        redirect_uri: Option<String>,
    ) -> (r: Self)
        ensures
            r == NewError::spec_new(
                OAuthErrorKind::Common(OAuthErrorCommonKind::InvalidRequest),
                description,
                state,
                error_uri,
                redirect_uri,
            ),
    {
        Self::new(
            OAuthErrorKind::Common(OAuthErrorCommonKind::InvalidRequest),
            description,
            state,
            error_uri,
            redirect_uri,
        )
    }

    pub fn unauthorized_client(
        description: Option<String>,
        state: Option<String>,
        error_uri: Option<String>,
        redirect_uri: Option<String>,
    ) -> (r: Self)
        ensures
            r == NewError::spec_new(
                OAuthErrorKind::Common(OAuthErrorCommonKind::UnauthorizedClient),
                description,
                state,
                error_uri,
                redirect_uri,
            ),
    {
        Self::new(
            OAuthErrorKind::Common(OAuthErrorCommonKind::UnauthorizedClient),
            description,
            state,
            error_uri,
            redirect_uri,
        )
    }

    pub fn invalid_scope(
        description: Option<String>,
        state: Option<String>,
        error_uri: Option<String>,
        redirect_uri: Option<String>,
    ) -> (r: Self)
        ensures
            r == NewError::spec_new(
                OAuthErrorKind::Common(OAuthErrorCommonKind::InvalidScope),
                description,
                state,
                error_uri,
                redirect_uri,
            ),
    {
        Self::new(
            OAuthErrorKind::Common(OAuthErrorCommonKind::InvalidScope),
            description,
            state,
            error_uri,
            redirect_uri,
        )
    }

    pub fn authorize_access_denied(
        description: Option<String>,
        state: Option<String>,
        error_uri: Option<String>,
        redirect_uri: Option<String>,
    ) -> (r: Self)
        ensures
            r == NewError::spec_new(
                OAuthErrorKind::Authorize(OAuthErrorAuthorizeKind::AccessDenied),
                description,
                state,
                error_uri,
                redirect_uri,
            ),
    {
        Self::new(
            OAuthErrorKind::Authorize(OAuthErrorAuthorizeKind::AccessDenied),
            description,
            state,
            error_uri,
            redirect_uri,
        )
    }

    pub fn authorize_unsupported_response_type(
        description: Option<String>,
        state: Option<String>,
        error_uri: Option<String>,
        redirect_uri: Option<String>,
    ) -> (r: Self)
        ensures
            r == NewError::spec_new(
                OAuthErrorKind::Authorize(OAuthErrorAuthorizeKind::UnsupportedResponseType),
                description,
                state,
                error_uri,
                redirect_uri,
            ),
    {
        Self::new(
            OAuthErrorKind::Authorize(OAuthErrorAuthorizeKind::UnsupportedResponseType),
            description,
            state,
            error_uri,
            redirect_uri,
        )
    }

    pub fn token_invalid_client(
        description: Option<String>,
        state: Option<String>,
        error_uri: Option<String>,
        redirect_uri: Option<String>,
    ) -> (r: Self)
        ensures
            r == NewError::spec_new(
                OAuthErrorKind::Token(OAuthErrorTokenKind::InvalidClient),
                description,
                state,
                error_uri,
                redirect_uri,
            ),
    {
        Self::new(
            OAuthErrorKind::Token(OAuthErrorTokenKind::InvalidClient),
            description,
            state,
            error_uri,
            redirect_uri,
        )
    }

    pub fn token_invalid_grant(
        description: Option<String>,
        state: Option<String>,
        error_uri: Option<String>,
        redirect_uri: Option<String>,
    ) -> (r: Self)
        ensures
            r == NewError::spec_new(
                OAuthErrorKind::Token(OAuthErrorTokenKind::InvalidGrant),
                description,
                state,
                error_uri,
                redirect_uri,
            ),
    {
        Self::new(
            OAuthErrorKind::Token(OAuthErrorTokenKind::InvalidGrant),
            description,
            state,
            error_uri,
            redirect_uri,
        )
    }

    pub fn token_unsupported_grant_type(
        description: Option<String>,
        state: Option<String>,
        error_uri: Option<String>,
        redirect_uri: Option<String>,
    ) -> (r: Self)
        ensures
            r == NewError::spec_new(
                OAuthErrorKind::Token(OAuthErrorTokenKind::UnsupportedGrantType),
                description,
                state,
                error_uri,
                redirect_uri,
            ),
    {
        Self::new(
            OAuthErrorKind::Token(OAuthErrorTokenKind::UnsupportedGrantType),
            description,
            state,
            error_uri,
            redirect_uri,
        )
    }

    /// An error of a kind with its description, state, error page and redirect
    /// address.
    pub open spec fn spec_new(
        kind: OAuthErrorKind,
        description: Option<String>,
        state: Option<String>,
        error_uri: Option<String>,
        redirect_uri: Option<String>,
    ) -> NewError {
        NewError { state, description, kind, error_uri, redirect_uri }
    }
}

/// The query an OAuth error is sent back with.
#[derive(Debug, Clone)]
pub struct NewErrorQueryData {
    pub kind: OAuthErrorKind,
    pub description: Option<String>,
    pub state: Option<String>,
}

/// An OAuth error with its description and the client's state.
#[derive(Debug, Clone)]
pub struct OAuthErrorData {
    pub kind: OAuthErrorKind,
    pub description: Option<String>,
    pub state: Option<String>,
}

/// A query string deserialized into `T`, rejected as an OAuth error.
pub struct OAuthQuery<T>(pub T);

/// What the authorization endpoint answers a GET with: the application, the
/// scopes requested and the scopes that could not be read.
#[derive(Debug, Clone)]
pub enum OAuthResponse {
    Get { app_name: String, invalid_scopes: Vec<String>, scopes: Vec<String> },
}

/// A request to the token endpoint, by grant type.
#[derive(Debug, Clone)]
pub enum TokenEndpoint {
    AuthorizationCode(TokenAuthorizationCode),
    ClientCredentials(TokenClientCredentials),
    RefreshToken(TokenRefreshToken),
}

/// A token request with an authorization code.
#[derive(Debug, Clone)]
pub struct TokenAuthorizationCode {
    pub code: String,
    pub redirect_uri: String,
    pub client_id: String,
}

/// A token request with client credentials.
#[derive(Debug, Clone)]
pub struct TokenClientCredentials {}

/// A token request with a refresh token.
#[derive(Debug, Clone)]
pub struct TokenRefreshToken {
    pub refresh_token: String,
    pub scope: Option<String>,
}

/// A requested scope: an internal one, or a custom one by name.
#[derive(Debug, Clone, PartialEq, Eq)]
pub enum Scope {
    Internal(InternalScope),
    Custom(String),
}

/// A scope as its contracts see it.
pub enum ScopeView {
    Internal(InternalScope),
    Custom(Seq<char>),
}

/// The view of a scope.
pub open spec fn scope_view(s: Scope) -> ScopeView {
    match s {
        Scope::Internal(i) => ScopeView::Internal(i),
        Scope::Custom(c) => ScopeView::Custom(c@),
    }
}

/// A requested scope could not be read.
#[derive(Debug, Clone, Copy)]
pub struct InvalidScopeFromStrError;

/// The pattern of custom scope names: one or more of `a-z`, `-`, `.`, `:`.
pub const SCOPE_VALIDATION_PATTERN: &'static str = "^[a-z\\-.:]+$";

/// Whether a character may stand in a custom scope name.
pub open spec fn scope_name_char(c: char) -> bool {
    ('a' <= c <= 'z') || c == '-' || c == '.' || c == ':'
}

/// Whether a text is a custom scope name: not empty, and made of the
/// characters `a-z`, `-`, `.`, `:` only.
pub open spec fn spec_valid_scope_name(s: Seq<char>) -> bool {
    s.len() > 0 && forall|i: int| 0 <= i < s.len() ==> #[trigger] scope_name_char(s[i])
}

/// Finds `SCOPE_VALIDATION_PATTERN` in a text with `regex`
/// (`Regex::new(..).find(..)`) and gives the text it matched. The pattern is
/// anchored at both ends and its class is `a-z`, `-`, `.`, `:`, so it matches
/// exactly the non-empty texts made of those characters, and then the whole
/// text.
#[verifier::external_body]
fn regex_find(pattern: &str, haystack: &str) -> (r: Option<String>)
    requires
        pattern@ == SCOPE_VALIDATION_PATTERN@,
    ensures
        r is Some <==> spec_valid_scope_name(haystack@),
        r matches Some(m) ==> m@ == haystack@,
{
    regex::Regex::new(pattern).unwrap().find(haystack).map(|m| m.as_str().to_string())
}

/// Whether a text holds a character.
pub fn contains_char(s: &str, c: char) -> (r: bool)
    ensures
        r == s@.contains(c),
{
    let n: usize = s.unicode_len();
    let mut i: usize = 0;
    while i < n
        invariant
            n == s@.len(),
            i <= n,
            forall|j: int| 0 <= j < i ==> s@[j] != c,
        decreases n - i,
    {
        if s.get_char(i) == c {
            return true;
        }
        i = i + 1;
    }
    false
}

/// The scope a requested name stands for: none when it holds a space, an
/// internal scope by its name, and a custom scope when it is a valid custom
/// scope name.
pub open spec fn spec_scope_from_str(s: Seq<char>) -> Option<ScopeView> {
    if s.contains(' ') {
        None
    } else if spec_internal_scope(s) is Some {
        Some(ScopeView::Internal(spec_internal_scope(s)->0))
    } else if spec_valid_scope_name(s) {
        Some(ScopeView::Custom(s))
    } else {
        None
    }
}

/// The name of a scope (its display form).
pub open spec fn spec_scope_to_string(s: ScopeView) -> Seq<char> {
    match s {
        ScopeView::Internal(i) => spec_scope_name(i),
        ScopeView::Custom(c) => c,
    }
}

impl Scope {
    /// Reads a requested scope.
    pub fn from_str(s: &str) -> (r: Result<Scope, InvalidScopeFromStrError>)
        ensures
            match spec_scope_from_str(s@) {
                Some(v) => r matches Ok(scope) && scope_view(scope) == v,
                None => r is Err,
            },
    {
        if contains_char(s, ' ') {
            return Err(InvalidScopeFromStrError);
        }
        if let Some(internal) = InternalScope::from_str(s) {
            return Ok(Scope::Internal(internal));
        }
        match regex_find(SCOPE_VALIDATION_PATTERN, s) {
            Some(m) => Ok(Scope::Custom(m)),
            None => Err(InvalidScopeFromStrError),
        }
    }

    /// The scope's name (its display form).
    pub fn to_string(&self) -> (r: String)
        ensures
            r@ == spec_scope_to_string(scope_view(*self)),
    {
        match self {
            Scope::Internal(i) => i.to_string(),
            Scope::Custom(c) => c.clone(),
        }
    }
}

/// Whether a scope may be granted by an application group that allows the
/// given internal scopes: custom scopes always, internal ones when allowed.
pub open spec fn spec_scope_allowed(s: ScopeView, allowed: Seq<InternalScope>) -> bool {
    match s {
        ScopeView::Internal(i) => allowed.contains(i),
        ScopeView::Custom(_) => true,
    }
}

/// Reads every requested scope; nothing when one cannot be read.
pub open spec fn spec_parse_scopes(names: Seq<Seq<char>>) -> Option<Seq<ScopeView>>
    decreases names.len(),
{
    if names.len() == 0 {
        Some(Seq::empty())
    } else {
        match spec_parse_scopes(names.drop_last()) {
            Some(prefix) => match spec_scope_from_str(names.last()) {
                Some(s) => Some(prefix.push(s)),
                None => None,
            },
            None => None,
        }
    }
}

/// The scopes that may be granted, in their order.
pub open spec fn spec_keep_allowed(scopes: Seq<ScopeView>, allowed: Seq<InternalScope>) -> Seq<
    ScopeView,
>
    decreases scopes.len(),
{
    if scopes.len() == 0 {
        Seq::empty()
    } else {
        let rest = spec_keep_allowed(scopes.drop_last(), allowed);
        if spec_scope_allowed(scopes.last(), allowed) {
            rest.push(scopes.last())
        } else {
            rest
        }
    }
}

/// The requested scopes that may be granted: fails when one cannot be read;
/// otherwise drops the internal scopes that the group does not allow and
/// keeps the rest in order. The list of unreadable scopes is always empty.
pub open spec fn spec_find_scopes(names: Seq<Seq<char>>, allowed: Seq<InternalScope>) -> Option<
    Seq<ScopeView>,
> {
    match spec_parse_scopes(names) {
        Some(scopes) => Some(spec_keep_allowed(scopes, allowed)),
        None => None,
    }
}

/// Only scopes that the group allows are kept, each one of the requested
/// scopes, and every requested scope that the group allows is kept.
pub proof fn lemma_kept_scopes_are_allowed(scopes: Seq<ScopeView>, allowed: Seq<InternalScope>)
    ensures
        forall|i: int|
            0 <= i < spec_keep_allowed(scopes, allowed).len() ==> spec_scope_allowed(
                #[trigger] spec_keep_allowed(scopes, allowed)[i],
                allowed,
            ) && scopes.contains(spec_keep_allowed(scopes, allowed)[i]),
        forall|j: int|
            0 <= j < scopes.len() && spec_scope_allowed(#[trigger] scopes[j], allowed)
                ==> spec_keep_allowed(scopes, allowed).contains(scopes[j]),
    decreases scopes.len(),
{
    if scopes.len() > 0 {
        let rest = scopes.drop_last();
        lemma_kept_scopes_are_allowed(rest, allowed);
        let kept = spec_keep_allowed(scopes, allowed);
        let kept_rest = spec_keep_allowed(rest, allowed);
        assert forall|i: int| 0 <= i < kept.len() implies spec_scope_allowed(
            #[trigger] kept[i],
            allowed,
        ) && scopes.contains(kept[i]) by {
            if i < kept_rest.len() {
                assert(kept[i] == kept_rest[i]);
                let k = choose|k: int| 0 <= k < rest.len() && rest[k] == kept_rest[i];
                assert(scopes[k] == rest[k]);
            } else {
                assert(kept[i] == scopes.last());
                assert(scopes[scopes.len() - 1] == scopes.last());
            }
        }
        assert forall|j: int|
            0 <= j < scopes.len() && spec_scope_allowed(#[trigger] scopes[j], allowed)
                implies kept.contains(scopes[j]) by {
            if j < scopes.len() - 1 {
                assert(rest[j] == scopes[j]);
                let k = choose|k: int| 0 <= k < kept_rest.len() && kept_rest[k] == rest[j];
                assert(kept[k] == kept_rest[k]);
            } else {
                assert(kept[kept.len() - 1] == scopes.last());
            }
        }
    }
}

/// Whether a list of internal scopes holds one.
pub fn contains_internal(list: &Vec<InternalScope>, item: InternalScope) -> (r: bool)
    ensures
        r == list@.contains(item),
{
    let mut i: usize = 0;
    while i < list.len()
        invariant
            i <= list.len(),
            forall|j: int| 0 <= j < i ==> list@[j] != item,
        decreases list.len() - i,
    {
        if list[i] == item {
            return true;
        }
        i = i + 1;
    }
    false
}

/// The requested scopes that an application group allows.
pub fn find_scopes(scopes: &Vec<String>, allowed_scopes: &Vec<InternalScope>) -> (r: Result<
    (Vec<Scope>, Vec<String>),
    InvalidScopeFromStrError,
>)
    ensures
        match spec_find_scopes(scopes@.map_values(|s: String| s@), allowed_scopes@) {
            Some(kept) => r matches Ok((found, errors)) && found@.map_values(|s: Scope| scope_view(s))
                == kept && errors@.len() == 0,
            None => r is Err,
        },
{
    let ghost names = scopes@.map_values(|s: String| s@);
    let mut parsed: Vec<Scope> = Vec::new();
    let mut i: usize = 0;
    while i < scopes.len()
        invariant
            i <= scopes.len(),
            names == scopes@.map_values(|s: String| s@),
            spec_parse_scopes(names.take(i as int)) == Some(
                parsed@.map_values(|s: Scope| scope_view(s)),
            ),
        decreases scopes.len() - i,
    {
        assert(names.take(i + 1).drop_last() =~= names.take(i as int));
        match Scope::from_str(scopes[i].as_str()) {
            Ok(scope) => {
                parsed.push(scope);
                assert(parsed@.map_values(|s: Scope| scope_view(s)) =~= spec_parse_scopes(
                    names.take(i as int),
                )->0.push(scope_view(scope)));
            },
            Err(e) => {
                proof {
                    lemma_parse_fails_on_prefix(names, i as int + 1);
                    assert(names.take(names.len() as int) =~= names);
                }
                return Err(e);
            },
        }
        i = i + 1;
    }
    assert(names.take(scopes.len() as int) =~= names);
    let ghost parsed_view = parsed@.map_values(|s: Scope| scope_view(s));
    let mut kept: Vec<Scope> = Vec::new();
    let mut j: usize = 0;
    while j < parsed.len()
        invariant
            j <= parsed.len(),
            parsed_view == parsed@.map_values(|s: Scope| scope_view(s)),
            kept@.map_values(|s: Scope| scope_view(s)) == spec_keep_allowed(
                parsed_view.take(j as int),
                allowed_scopes@,
            ),
        decreases parsed.len() - j,
    {
        assert(parsed_view.take(j + 1).drop_last() =~= parsed_view.take(j as int));
        let allowed = match &parsed[j] {
            Scope::Internal(internal) => contains_internal(allowed_scopes, *internal),
            Scope::Custom(_) => true,
        };
        if allowed {
            let s = match &parsed[j] {
                Scope::Internal(internal) => Scope::Internal(*internal),
                Scope::Custom(c) => Scope::Custom(c.clone()),
            };
            kept.push(s);
            assert(kept@.map_values(|s: Scope| scope_view(s)) =~= spec_keep_allowed(
                parsed_view.take(j as int),
                allowed_scopes@,
            ).push(parsed_view[j as int]));
        }
        j = j + 1;
    }
    assert(parsed_view.take(parsed.len() as int) =~= parsed_view);
    Ok((kept, Vec::new()))
}

/// Once a name cannot be read, no longer list of names can be read.
proof fn lemma_parse_fails_on_prefix(names: Seq<Seq<char>>, k: int)
    requires
        0 < k <= names.len(),
        spec_parse_scopes(names.take(k)) is None,
    ensures
        spec_parse_scopes(names) is None,
    decreases names.len() - k,
{
    if k < names.len() {
        assert(names.take(k + 1).drop_last() =~= names.take(k));
        lemma_parse_fails_on_prefix(names, k + 1);
    } else {
        assert(names.take(k) =~= names);
    }
}

/// The prefix of the form fields that enable a scope.
pub const ENABLE_SCOPE_PREFIX: &'static str = "enable-scope:";

/// The scope a form field enables: the rest of a field name that starts with
/// `enable-scope:`, where that rest is not empty.
pub open spec fn spec_enabled_scope(key: Seq<char>) -> Option<Seq<char>> {
    let prefix = ENABLE_SCOPE_PREFIX@;
    if key.len() > prefix.len() && key.take(prefix.len() as int) == prefix {
        Some(key.skip(prefix.len() as int))
    } else {
        None
    }
}

/// The scope a form field of a consent submission enables, if any.
pub fn enabled_scope(key: &str) -> (r: Option<String>)
    ensures
        opt_view(r) == spec_enabled_scope(key@),
{
    let prefix = ENABLE_SCOPE_PREFIX;
    let n: usize = key.unicode_len();
    let p: usize = prefix.unicode_len();
    if n <= p {
        return None;
    }
    let head = key.substring_char(0, p);
    if !crate::routes::str_eq(head, prefix) {
        return None;
    }
    let rest = key.substring_char(p, n);
    Some(rest.to_owned())
}


/// The serialization of a parsed address, if the text parses.
pub uninterp spec fn url_serialization(s: Seq<char>) -> Option<Seq<char>>;

/// Parses an address (`url::Url::from_str`) and gives its serialization;
/// nothing when it does not parse. The result is named, not stated.
#[verifier::external_body]
fn parse_url(s: &str) -> (r: Option<String>)
    ensures
        opt_view(r) == url_serialization(s@),
{
    <url::Url as std::str::FromStr>::from_str(s).ok().map(|u| u.to_string())
}

/// A copy of an optional text.
pub fn clone_opt(o: &Option<String>) -> (r: Option<String>)
    ensures
        r == *o,
{
    match o {
        Some(s) => Some(s.clone()),
        None => None,
    }
}

/// The checks of an authorization request once its application is known,
/// with the addresses the application registered. It fails when the
/// redirect address does not parse or is not registered (without the
/// client's state), when the response type is not `code` (an unsupported
/// response type) or when the response mode is not `query` (an invalid
/// request), the last two sent to the redirect address with the client's
/// state. Otherwise it gives the parsed redirect address.
pub fn check_authorize_request(params: &OAuthAuthorizeParameters, registered: &Vec<String>) -> (r: Result<
    String,
    NewError,
>)
    ensures
        match url_serialization(params.redirect_uri@) {
            None => r == Err::<String, NewError>(
                NewError::spec_new(
                    OAuthErrorKind::NotSpec(NewErrorNotSpec::InvalidRedirectUri),
                    None,
                    None,
                    None,
                    None,
                ),
            ),
            Some(uri) => if !crate::csrf::string_views(registered@).contains(params.redirect_uri@) {
                r == Err::<String, NewError>(
                    NewError::spec_new(
                        OAuthErrorKind::NotSpec(NewErrorNotSpec::InvalidRedirectUri),
                        None,
                        None,
                        None,
                        None,
                    ),
                )
            } else if !(params.response_type is Code) {
                r matches Err(e) && e.kind == OAuthErrorKind::Authorize(
                    OAuthErrorAuthorizeKind::UnsupportedResponseType,
                ) && e.description is None && e.state == params.state && e.error_uri is None
                    && opt_view(e.redirect_uri) == Some(uri)
            } else if !(params.response_mode is Query) {
                r matches Err(e) && e.kind == OAuthErrorKind::Common(
                    OAuthErrorCommonKind::InvalidRequest,
                ) && e.description is None && e.state == params.state && e.error_uri is None
                    && opt_view(e.redirect_uri) == Some(uri)
            } else {
                r matches Ok(u) && u@ == uri
            },
        },
{
    let uri = match parse_url(params.redirect_uri.as_str()) {
        Some(u) => u,
        None => return Err(NewError::invalid_redirect_uri(None, None, None)),
    };
    if !crate::csrf::contains_string(registered, &params.redirect_uri) {
        return Err(NewError::invalid_redirect_uri(None, None, None));
    }
    match params.response_type {
        ResponseType::Code => {},
        _ => {
            return Err(
                NewError::authorize_unsupported_response_type(
                    None,
                    clone_opt(&params.state),
                    None,
                    Some(uri),
                ),
            );
        },
    }
    match params.response_mode {
        ResponseMode::Query => {},
        _ => {
            return Err(NewError::invalid_request(None, clone_opt(&params.state), None, Some(uri)));
        },
    }
    Ok(uri)
}

/// The scopes that the fields of a consent submission enable, in the order
/// of the fields.
pub open spec fn spec_selected_scopes(keys: Seq<Seq<char>>) -> Seq<Seq<char>>
    decreases keys.len(),
{
    if keys.len() == 0 {
        Seq::empty()
    } else {
        let rest = spec_selected_scopes(keys.drop_last());
        match spec_enabled_scope(keys.last()) {
            Some(s) => rest.push(s),
            None => rest,
        }
    }
}

/// The scope names that the fields of a consent submission enable.
pub fn selected_scope_names(keys: &Vec<String>) -> (r: Vec<String>)
    ensures
        r@.map_values(|s: String| s@) == spec_selected_scopes(keys@.map_values(|s: String| s@)),
{
    let ghost names = keys@.map_values(|s: String| s@);
    let mut out: Vec<String> = Vec::new();
    let mut i: usize = 0;
    while i < keys.len()
        invariant
            i <= keys.len(),
            names == keys@.map_values(|s: String| s@),
            out@.map_values(|s: String| s@) == spec_selected_scopes(names.take(i as int)),
        decreases keys.len() - i,
    {
        assert(names.take(i + 1).drop_last() =~= names.take(i as int));
        match enabled_scope(keys[i].as_str()) {
            Some(s) => {
                out.push(s);
                assert(out@.map_values(|s: String| s@) =~= spec_selected_scopes(
                    names.take(i as int),
                ).push(spec_enabled_scope(names[i as int])->0));
            },
            None => {},
        }
        i = i + 1;
    }
    assert(names.take(keys.len() as int) =~= names);
    out
}

/// The names of scopes (their display forms), in order.
pub fn scope_names(scopes: &Vec<Scope>) -> (r: Vec<String>)
    ensures
        r@.map_values(|s: String| s@) == scopes@.map_values(|s: Scope| spec_scope_to_string(scope_view(s))),
{
    let ghost target = scopes@.map_values(|s: Scope| spec_scope_to_string(scope_view(s)));
    let mut out: Vec<String> = Vec::new();
    let mut i: usize = 0;
    while i < scopes.len()
        invariant
            i <= scopes.len(),
            target == scopes@.map_values(|s: Scope| spec_scope_to_string(scope_view(s))),
            out@.len() == i,
            out@.map_values(|s: String| s@) == target.take(i as int),
        decreases scopes.len() - i,
    {
        let name = scopes[i].to_string();
        out.push(name);
        assert(out@.map_values(|s: String| s@) =~= target.take(i + 1));
        i = i + 1;
    }
    assert(target.take(scopes.len() as int) =~= target);
    out
}

/// Texts joined with a separator between each two.
pub open spec fn spec_join(parts: Seq<Seq<char>>, sep: Seq<char>) -> Seq<char>
    decreases parts.len(),
{
    if parts.len() == 0 {
        Seq::empty()
    } else if parts.len() == 1 {
        parts[0]
    } else {
        spec_join(parts.drop_last(), sep) + sep + parts.last()
    }
}

/// Joins texts with a single space between each two.
pub fn join_with_space(parts: &Vec<String>) -> (r: String)
    ensures
        r@ == spec_join(parts@.map_values(|s: String| s@), " "@),
{
    let ghost views = parts@.map_values(|s: String| s@);
    let mut out = String::new();
    let mut i: usize = 0;
    while i < parts.len()
        invariant
            i <= parts.len(),
            views == parts@.map_values(|s: String| s@),
            out@ == spec_join(views.take(i as int), " "@),
        decreases parts.len() - i,
    {
        assert(views.take(i + 1).drop_last() =~= views.take(i as int));
        if i > 0 {
            out.append(" ");
        } else {
            assert(out@ + views[0] =~= views[0]);
        }
        out.append(parts[i].as_str());
        i = i + 1;
    }
    assert(views.take(parts.len() as int) =~= views);
    out
}

/// The method of a request to the authorization endpoint.
#[derive(Debug, Clone, Copy, PartialEq, Eq, Structural)]
pub enum AuthorizeMethod {
    Get,
    Post,
    Other,
}

/// What the authorization endpoint does once the request passed
/// `check_authorize_request` and the application group's scopes are known.
#[derive(Debug, Clone)]
pub enum AuthorizeDecision {
    /// A GET: ask the user for consent to these scopes.
    ShowConsent { scopes: Vec<String>, invalid_scopes: Vec<String> },
    /// A POST that grants these scopes (joined by spaces): issue a code and
    /// redirect with it.
    Grant { scope: String },
    /// Refuse, with this error sent to the redirect address.
    Refuse(NewError),
    /// Any other method: 405.
    MethodNotAllowed,
}

/// Whether `e` is the error of the given kind that goes, with the client's
/// state, to the redirect address `uri`.
pub open spec fn is_redirect_error(e: NewError, kind: OAuthErrorKind, state: Option<String>, uri: Seq<char>) -> bool {
    &&& e.kind == kind
    &&& e.description is None
    &&& e.state == state
    &&& e.error_uri is None
    &&& opt_view(e.redirect_uri) == Some(uri)
}

/// The decision of the authorization endpoint. The requested scopes must all
/// be readable (else an invalid-scope error). A GET shows the scopes that the
/// group allows. A POST reads the scopes that the consent form enabled (the
/// keys of its other parameters), which must be readable too; when those keys
/// hold `denied` access is denied, and otherwise the enabled scopes that the
/// group allows are granted. Other methods are not allowed. The keys are read
/// in the order of `params.other`.
pub fn decide_authorization(
    params: &OAuthAuthorizeParameters,
    uri: &String,
    allowed: &Vec<InternalScope>,
    method: AuthorizeMethod,
) -> (r: AuthorizeDecision)
    ensures
        match spec_find_scopes(params.scopes@.map_values(|s: String| s@), allowed@) {
            None => r matches AuthorizeDecision::Refuse(e) && is_redirect_error(
                e,
                OAuthErrorKind::Common(OAuthErrorCommonKind::InvalidScope),
                params.state,
                uri@,
            ),
            Some(kept) => match method {
                AuthorizeMethod::Get => r matches AuthorizeDecision::ShowConsent {
                    scopes,
                    invalid_scopes,
                } && scopes@.map_values(|s: String| s@) == kept.map_values(
                    |s: ScopeView| spec_scope_to_string(s),
                ) && invalid_scopes@.len() == 0,
                AuthorizeMethod::Post => match spec_find_scopes(
                    spec_selected_scopes(params.spec_other_keys()),
                    allowed@,
                ) {
                    None => r matches AuthorizeDecision::Refuse(e) && is_redirect_error(
                        e,
                        OAuthErrorKind::Common(OAuthErrorCommonKind::InvalidScope),
                        params.state,
                        uri@,
                    ),
                    Some(selected) => if params.spec_other_keys().contains(
                        "denied"@,
                    ) {
                        r matches AuthorizeDecision::Refuse(e) && is_redirect_error(
                            e,
                            OAuthErrorKind::Authorize(OAuthErrorAuthorizeKind::AccessDenied),
                            params.state,
                            uri@,
                        )
                    } else {
                        r matches AuthorizeDecision::Grant { scope } && scope@ == spec_join(
                            selected.map_values(|s: ScopeView| spec_scope_to_string(s)),
                            " "@,
                        )
                    },
                },
                AuthorizeMethod::Other => r is MethodNotAllowed,
            },
        },
{
    let (scopes, scope_errors) = match find_scopes(&params.scopes, allowed) {
        Ok(found) => found,
        Err(_) => {
            return AuthorizeDecision::Refuse(
                NewError::invalid_scope(None, clone_opt(&params.state), None, Some(uri.clone())),
            );
        },
    };
    match method {
        AuthorizeMethod::Get => {
            let names = scope_names(&scopes);
            proof {
                let v = scopes@.map_values(|s: Scope| scope_view(s));
                assert(scopes@.map_values(|s: Scope| spec_scope_to_string(scope_view(s)))
                    =~= v.map_values(|s: ScopeView| spec_scope_to_string(s)));
            }
            AuthorizeDecision::ShowConsent { scopes: names, invalid_scopes: scope_errors }
        },
        AuthorizeMethod::Post => {
            let other_keys = params.other_keys();
            let enabled = selected_scope_names(&other_keys);
            let (selected, _) = match find_scopes(&enabled, allowed) {
                Ok(found) => found,
                Err(_) => {
                    return AuthorizeDecision::Refuse(
                        NewError::invalid_scope(
                            None,
                            clone_opt(&params.state),
                            None,
                            Some(uri.clone()),
                        ),
                    );
                },
            };
            let denied = String::from_str("denied");
            if crate::csrf::contains_string(&other_keys, &denied) {
                return AuthorizeDecision::Refuse(
                    NewError::authorize_access_denied(
                        None,
                        clone_opt(&params.state),
                        None,
                        Some(uri.clone()),
                    ),
                );
            }
            let names = scope_names(&selected);
            proof {
                let v = selected@.map_values(|s: Scope| scope_view(s));
                assert(selected@.map_values(|s: Scope| spec_scope_to_string(scope_view(s)))
                    =~= v.map_values(|s: ScopeView| spec_scope_to_string(s)));
            }
            AuthorizeDecision::Grant { scope: join_with_space(&names) }
        },
        AuthorizeMethod::Other => AuthorizeDecision::MethodNotAllowed,
    }
}

/// What `application/x-www-form-urlencoded` makes of (name, value) pairs, in
/// order.
pub uninterp spec fn urlencoded_pairs(pairs: Seq<(Seq<char>, Seq<char>)>) -> Seq<char>;

/// The views of (name, value) pairs.
pub open spec fn pair_views(pairs: Seq<(String, String)>) -> Seq<(Seq<char>, Seq<char>)> {
    pairs.map_values(|p: (String, String)| (p.0@, p.1@))
}

/// Encodes (name, value) pairs as a query string with `url`'s
/// `form_urlencoded::Serializer` (`extend_pairs`, then `finish`), the
/// serializer that `serde_urlencoded` writes each field of a struct with. The
/// encoding is named, not stated.
#[verifier::external_body]
fn encode_query_pairs(pairs: &Vec<(String, String)>) -> (r: String)
    ensures
        r@ == urlencoded_pairs(pair_views(pairs@)),
{
    url::form_urlencoded::Serializer::new(String::new()).extend_pairs(
        pairs.iter().map(|p| (p.0.as_str(), p.1.as_str())),
    ).finish()
}

/// The serialization of a parsed address whose query is replaced, if the
/// address parses.
pub uninterp spec fn url_with_query(address: Seq<char>, query: Seq<char>) -> Option<Seq<char>>;

/// Parses an address (`url::Url::from_str`), replaces its query
/// (`Url::set_query`) and gives the serialization. The result is named, not
/// stated; it is there exactly when the address parses, as for `parse_url`.
#[verifier::external_body]
fn set_url_query(address: &str, query: &str) -> (r: Option<String>)
    ensures
        opt_view(r) == url_with_query(address@, query@),
        r is Some <==> url_serialization(address@) is Some,
{
    match <url::Url as std::str::FromStr>::from_str(address) {
        Ok(mut url) => {
            url.set_query(Some(query));
            Some(url.as_str().to_string())
        },
        Err(_) => None,
    }
}

/// The query of the redirect that grants a code: the code, then the
/// client's state where it sent one.
pub open spec fn code_redirect_pairs(code: Seq<char>, state: Option<Seq<char>>) -> Seq<
    (Seq<char>, Seq<char>),
> {
    match state {
        Some(s) => seq![("code"@, code), ("state"@, s)],
        None => seq![("code"@, code)],
    }
}

/// The address a granted authorization redirects to: the client's redirect
/// address with the query `code=<code>`, followed by `state=<state>` where
/// the client sent a state. There is one exactly when the redirect address
/// parses (which `check_authorize_request` has checked).
pub fn authorization_redirect(params: &OAuthAuthorizeParameters, code: &str) -> (r: Option<String>)
    ensures
        opt_view(r) == url_with_query(
            params.redirect_uri@,
            urlencoded_pairs(code_redirect_pairs(code@, opt_view(params.state))),
        ),
        r is Some <==> url_serialization(params.redirect_uri@) is Some,
{
    let mut pairs: Vec<(String, String)> = Vec::new();
    pairs.push((String::from_str("code"), code.to_owned()));
    match &params.state {
        Some(s) => pairs.push((String::from_str("state"), s.clone())),
        None => {},
    }
    assert(pair_views(pairs@) =~= code_redirect_pairs(code@, opt_view(params.state)));
    let query = encode_query_pairs(&pairs);
    set_url_query(params.redirect_uri.as_str(), query.as_str())
}

impl OAuthErrorKind {
    /// The name of the error in the `error` field of an answer.
    pub open spec fn spec_error_name(&self) -> Seq<char> {
        match *self {
            OAuthErrorKind::Common(k) => match k {
                OAuthErrorCommonKind::InvalidRequest => "invalid_request"@,
                OAuthErrorCommonKind::UnauthorizedClient => "unauthorized_client"@,
                OAuthErrorCommonKind::InvalidScope => "invalid_scope"@,
            },
            OAuthErrorKind::Authorize(k) => match k {
                OAuthErrorAuthorizeKind::AccessDenied => "access_denied"@,
                OAuthErrorAuthorizeKind::UnsupportedResponseType => "unsupported_response_type"@,
                OAuthErrorAuthorizeKind::ServerError => "server_error"@,
                OAuthErrorAuthorizeKind::TemporarilyUnavailable => "temporarily_unavailable"@,
            },
            OAuthErrorKind::Token(k) => match k {
                OAuthErrorTokenKind::InvalidClient => "invalid_client"@,
                OAuthErrorTokenKind::InvalidGrant => "invalid_grant"@,
                OAuthErrorTokenKind::UnsupportedGrantType => "unsupported_grant_type"@,
            },
            OAuthErrorKind::NotSpec(k) => match k {
                NewErrorNotSpec::InvalidClient => "invalid_client"@,
                NewErrorNotSpec::InvalidRedirectUri => "invalid_redirect_uri"@,
            },
        }
    }

    /// The name of the error in the `error` field of an answer.
    pub fn error_name(&self) -> (r: String)
        ensures
            r@ == self.spec_error_name(),
    {
        match self {
            OAuthErrorKind::Common(k) => match k {
                OAuthErrorCommonKind::InvalidRequest => String::from_str("invalid_request"),
                OAuthErrorCommonKind::UnauthorizedClient => String::from_str("unauthorized_client"),
                OAuthErrorCommonKind::InvalidScope => String::from_str("invalid_scope"),
            },
            OAuthErrorKind::Authorize(k) => match k {
                OAuthErrorAuthorizeKind::AccessDenied => String::from_str("access_denied"),
                OAuthErrorAuthorizeKind::UnsupportedResponseType => String::from_str(
                    "unsupported_response_type",
                ),
                OAuthErrorAuthorizeKind::ServerError => String::from_str("server_error"),
                OAuthErrorAuthorizeKind::TemporarilyUnavailable => String::from_str(
                    "temporarily_unavailable",
                ),
            },
            OAuthErrorKind::Token(k) => match k {
                OAuthErrorTokenKind::InvalidClient => String::from_str("invalid_client"),
                OAuthErrorTokenKind::InvalidGrant => String::from_str("invalid_grant"),
                OAuthErrorTokenKind::UnsupportedGrantType => String::from_str(
                    "unsupported_grant_type",
                ),
            },
            OAuthErrorKind::NotSpec(k) => match k {
                NewErrorNotSpec::InvalidClient => String::from_str("invalid_client"),
                NewErrorNotSpec::InvalidRedirectUri => String::from_str("invalid_redirect_uri"),
            },
        }
    }
}

/// The query of an error sent to the redirect address: `error`, then
/// `<description_field>` where there is a description, then `state` where
/// the client sent one.
pub open spec fn error_pairs(
    name: Seq<char>,
    description_field: Seq<char>,
    description: Option<Seq<char>>,
    state: Option<Seq<char>>,
) -> Seq<(Seq<char>, Seq<char>)> {
    seq![("error"@, name)] + match description {
        Some(d) => seq![(description_field, d)],
        None => Seq::empty(),
    } + match state {
        Some(s) => seq![("state"@, s)],
        None => Seq::empty(),
    }
}

/// Builds the query of an error: `error`, the description under
/// `description_field` and the state, the last two where present.
fn error_query(
    kind: &OAuthErrorKind,
    description_field: &str,
    description: &Option<String>,
    state: &Option<String>,
) -> (r: String)
    ensures
        r@ == urlencoded_pairs(
            error_pairs(kind.spec_error_name(), description_field@, opt_view(*description), opt_view(*state)),
        ),
{
    let mut pairs: Vec<(String, String)> = Vec::new();
    pairs.push((String::from_str("error"), kind.error_name()));
    match description {
        Some(d) => pairs.push((description_field.to_owned(), d.clone())),
        None => {},
    }
    match state {
        Some(s) => pairs.push((String::from_str("state"), s.clone())),
        None => {},
    }
    assert(pair_views(pairs@) =~= error_pairs(
        kind.spec_error_name(),
        description_field@,
        opt_view(*description),
        opt_view(*state),
    ));
    encode_query_pairs(&pairs)
}

/// How an OAuth error is answered.
#[derive(Debug, Clone)]
pub enum NewErrorAnswer {
    /// A temporary redirect to this address.
    Redirect(String),
    /// The error itself as JSON, with this status.
    Json { status: u16 },
    /// 500: the redirect address could not be built.
    Internal,
}

impl NewError {
    /// The answer to the error: with a redirect address, a redirect to it
    /// with `error`, `error_description` (where there is a description) and
    /// `state` (where the client sent one) in its query; without one, the
    /// error as JSON with its status.
    pub fn answer(&self) -> (r: NewErrorAnswer)
        ensures
            match self.redirect_uri {
                None => r == NewErrorAnswer::Json { status: spec_status(self.kind) },
                Some(address) => match url_with_query(
                    address@,
                    urlencoded_pairs(
                        error_pairs(
                            self.kind.spec_error_name(),
                            "error_description"@,
                            opt_view(self.description),
                            opt_view(self.state),
                        ),
                    ),
                ) {
                    Some(to) => r matches NewErrorAnswer::Redirect(x) && x@ == to,
                    None => r is Internal,
                },
            },
    {
        match &self.redirect_uri {
            None => NewErrorAnswer::Json { status: self.kind.status() },
            Some(address) => {
                let query = error_query(&self.kind, "error_description", &self.description, &self.state);
                match set_url_query(address.as_str(), query.as_str()) {
                    Some(to) => NewErrorAnswer::Redirect(to),
                    None => NewErrorAnswer::Internal,
                }
            },
        }
    }
}

/// The redirect that carries an OAuth error to an address: `error`,
/// `description` and `state` (the last two where present) in its query;
/// none when the address does not parse.
pub fn oauth_error_redirect(
    kind: OAuthErrorKind,
    description: Option<String>,
    state: Option<String>,
    redirect_uri: &str,
) -> (r: Option<String>)
    ensures
        opt_view(r) == url_with_query(
            redirect_uri@,
            urlencoded_pairs(
                error_pairs(kind.spec_error_name(), "description"@, opt_view(description), opt_view(state)),
            ),
        ),
{
    let query = error_query(&kind, "description", &description, &state);
    set_url_query(redirect_uri, query.as_str())
}

/// The scopes kept are never more than those requested, and when every
/// requested scope may be granted, all of them are kept as they came.
proof fn lemma_keep_allowed_bounds(scopes: Seq<ScopeView>, allowed: Seq<InternalScope>)
    ensures
        spec_keep_allowed(scopes, allowed).len() <= scopes.len(),
        (forall|j: int| 0 <= j < scopes.len() ==> spec_scope_allowed(#[trigger] scopes[j], allowed))
            ==> spec_keep_allowed(scopes, allowed) == scopes,
    decreases scopes.len(),
{
    if scopes.len() > 0 {
        let rest = scopes.drop_last();
        lemma_keep_allowed_bounds(rest, allowed);
        if forall|j: int| 0 <= j < scopes.len() ==> spec_scope_allowed(#[trigger] scopes[j], allowed) {
            assert forall|j: int| 0 <= j < rest.len() implies spec_scope_allowed(
                #[trigger] rest[j],
                allowed,
            ) by {
                assert(rest[j] == scopes[j]);
            }
            assert(spec_scope_allowed(scopes[scopes.len() - 1], allowed));
            assert(rest.push(scopes.last()) =~= scopes);
        }
    }
}

/// The scopes found for a request are readable requested scopes: finding
/// succeeds exactly when every requested name reads as a scope; each
/// internal scope found is allowed by the group; each requested scope that
/// is custom or an allowed internal one is found; no more scopes are found
/// than were requested; and when the group allows every requested internal
/// scope, all requested scopes are found in their order.
pub proof fn lemma_found_scopes(names: Seq<Seq<char>>, allowed: Seq<InternalScope>)
    ensures
        spec_find_scopes(names, allowed) is Some <==> spec_parse_scopes(names) is Some,
        spec_find_scopes(names, allowed) matches Some(kept) ==> forall|i: int|
            0 <= i < kept.len() ==> (#[trigger] kept[i] matches ScopeView::Internal(x)
                ==> allowed.contains(x)),
        spec_find_scopes(names, allowed) matches Some(kept) ==> forall|i: int|
            0 <= i < kept.len() ==> spec_parse_scopes(names)->0.contains(#[trigger] kept[i]),
        spec_parse_scopes(names) matches Some(parsed) ==> forall|j: int|
            0 <= j < parsed.len() && (parsed[j] is Custom || (parsed[j] matches ScopeView::Internal(
                x,
            ) && allowed.contains(x))) ==> spec_find_scopes(names, allowed)->0.contains(
                #[trigger] parsed[j],
            ),
        spec_parse_scopes(names) matches Some(parsed) ==> spec_find_scopes(names, allowed)->0.len()
            <= parsed.len(),
        spec_parse_scopes(names) matches Some(parsed) ==> ((forall|j: int|
            0 <= j < parsed.len() ==> (#[trigger] parsed[j] matches ScopeView::Internal(x)
                ==> allowed.contains(x))) ==> spec_find_scopes(names, allowed) == Some(parsed)),
{
    if let Some(parsed) = spec_parse_scopes(names) {
        lemma_kept_scopes_are_allowed(parsed, allowed);
        lemma_keep_allowed_bounds(parsed, allowed);
        let kept = spec_keep_allowed(parsed, allowed);
        assert forall|i: int| 0 <= i < kept.len() implies (#[trigger] kept[i] matches ScopeView::Internal(
            x,
        ) ==> allowed.contains(x)) by {
            assert(spec_scope_allowed(kept[i], allowed));
        }
        assert forall|j: int|
            0 <= j < parsed.len() && (parsed[j] is Custom || (parsed[j] matches ScopeView::Internal(
                x,
            ) && allowed.contains(x))) implies kept.contains(#[trigger] parsed[j]) by {
            assert(spec_scope_allowed(parsed[j], allowed));
        }
        if forall|j: int|
            0 <= j < parsed.len() ==> (#[trigger] parsed[j] matches ScopeView::Internal(x)
                ==> allowed.contains(x)) {
            assert forall|j: int| 0 <= j < parsed.len() implies spec_scope_allowed(
                #[trigger] parsed[j],
                allowed,
            ) by {
                if parsed[j] is Internal {
                    assert(parsed[j] matches ScopeView::Internal(x) ==> allowed.contains(x));
                }
            }
        }
    }
}

} // verus!
