//! Bearer-credential authentication: extracting the credential from a
//! request's authorization header and resolving it to an identity, with an
//! explicit development-mode bypass that substitutes a fixed identity.

use vstd::prelude::*;

verus! {

/// Metadata key under which trusted internal callers may supply a user id.
pub const USER_ID_KEY: &'static str = "x-user-id";

/// Metadata key under which trusted internal callers may supply a tenant id.
pub const TENANT_ID_KEY: &'static str = "x-tenant-id";

/// Metadata key of the authorization header.
pub const AUTH_HEADER_KEY: &'static str = "authorization";

/// The identity a request resolves to after successful authentication. It is
/// created per request and never persisted.
#[derive(Debug)]
pub struct AuthContext {
    pub user_id: String,
    pub tenant_id: Option<String>,
    pub token: String,
}

impl Clone for AuthContext {
    /// Cloning an authentication context keeps every field.
    fn clone(&self) -> (r: Self)
        ensures
            r == *self,
    {
        AuthContext {
            user_id: self.user_id.clone(),
            tenant_id: match &self.tenant_id {
                Some(t) => Some(t.clone()),
                None => None,
            },
            token: self.token.clone(),
        }
    }
}

/// The ways authentication can fail. Every one of them is fatal for the
/// request and maps onto the unauthenticated RPC code.
#[derive(Clone, Copy, PartialEq, Eq, Structural, Debug)]
pub enum AuthError {
    /// The request carries no authorization header.
    MissingHeader,
    /// The header value is not readable text.
    InvalidHeader,
    /// The header value does not carry a bearer credential.
    InvalidFormat,
    /// The external validation rejected the credential.
    InvalidToken,
}

impl AuthError {
    /// The human-readable message of each authentication failure.
    pub open spec fn spec_message(&self) -> Seq<char> {
        match self {
            AuthError::MissingHeader => "Missing authorization header"@,
            AuthError::InvalidHeader => "Invalid authorization header"@,
            AuthError::InvalidFormat => "Invalid authorization format"@,
            AuthError::InvalidToken => "Invalid token"@,
        }
    }

    /// The human-readable message of this failure.
    pub fn message(&self) -> (r: String)
        ensures
            r@ == self.spec_message(),
    {
        match self {
            AuthError::MissingHeader => String::from_str("Missing authorization header"),
            AuthError::InvalidHeader => String::from_str("Invalid authorization header"),
            AuthError::InvalidFormat => String::from_str("Invalid authorization format"),
            AuthError::InvalidToken => String::from_str("Invalid token"),
        }
    }
}

/// The bearer credential inside an authorization header value: the text after
/// the `Bearer ` prefix, or `None` where the prefix is absent.
pub open spec fn spec_bearer_token(s: Seq<char>) -> Option<Seq<char>> {
    if s.len() >= 7 && s.subrange(0, 7) == "Bearer "@ {
        Some(s.subrange(7, s.len() as int))
    } else {
        None
    }
}

/// Extract the bearer credential from an authorization header value.
fn bearer_token(s: &str) -> (r: Option<String>)
    ensures
        r is Some <==> spec_bearer_token(s@) is Some,
        r matches Some(t) ==> t@ == s@.subrange(7, s@.len() as int),
{
    let prefix = "Bearer ";
    proof {
        reveal_strlit("Bearer ");
    }
    let n = s.unicode_len();
    if n < 7 {
        return None;
    }
    let mut i: usize = 0;
    while i < 7
        invariant
            i <= 7,
            s@.len() >= 7,
            prefix@ == "Bearer "@,
            prefix@.len() == 7,
            forall|j: int| 0 <= j < i ==> s@[j] == prefix@[j],
        decreases 7 - i,
    {
        if s.get_char(i) != prefix.get_char(i) {
            proof {
                assert(s@.subrange(0, 7)[i as int] == s@[i as int]);
            }
            return None;
        }
        i = i + 1;
    }
    proof {
        assert(s@.subrange(0, 7) =~= "Bearer "@);
    }
    let token = s.substring_char(7, n);
    Some(token.to_owned())
}

/// How authentication fails for a given bypass setting and authorization
/// header value, or `None` where it succeeds: without the bypass the header
/// must be present, carry a bearer credential, and the credential must not be
/// the `invalid` sentinel the validation rejects.
pub open spec fn spec_auth_failure(skip: bool, header: Option<&str>) -> Option<AuthError> {
    if skip {
        None
    } else {
        match header {
            None => Some(AuthError::MissingHeader),
            Some(h) => match spec_bearer_token(h@) {
                None => Some(AuthError::InvalidFormat),
                Some(tok) => if tok == "invalid"@ {
                    Some(AuthError::InvalidToken)
                } else {
                    None
                },
            },
        }
    }
}

/// The user identity successful authentication resolves to.
pub open spec fn spec_auth_user(skip: bool) -> Seq<char> {
    if skip {
        "dev-user"@
    } else {
        "placeholder-user"@
    }
}

/// The tenant identity successful authentication resolves to.
pub open spec fn spec_auth_tenant(skip: bool) -> Seq<char> {
    if skip {
        "dev-tenant"@
    } else {
        "placeholder-tenant"@
    }
}

/// The authentication interceptor both protocol front ends share: it knows
/// where the external validation service lives and whether the
/// development-mode bypass was explicitly configured.
#[derive(Clone)]
pub struct AuthInterceptor {
    /// Address of the external authentication service.
    pub auth_service_url: String,
    /// Whether to skip authentication; never the default, set only by
    /// explicit development configuration.
    pub skip_auth: bool,
}

impl AuthInterceptor {
    /// A new interceptor for the given validation service address and bypass
    /// setting.
    pub fn new(auth_service_url: String, skip_auth: bool) -> (r: Self)
        ensures
            r.auth_service_url == auth_service_url,
            r.skip_auth == skip_auth,
    {
        AuthInterceptor { auth_service_url, skip_auth }
    }

    /// Resolve a credential to an identity. This stands in for the call to
    /// the external validation service: it rejects the explicit `invalid`
    /// sentinel and resolves every other credential to the placeholder
    /// identity.
    fn validate_token(&self, token: String) -> (r: Result<AuthContext, AuthError>)
        ensures
            token@ == "invalid"@ ==> r == Err::<AuthContext, AuthError>(AuthError::InvalidToken),
            token@ != "invalid"@ ==> (r matches Ok(c) && c.user_id@ == "placeholder-user"@
                && (c.tenant_id matches Some(t) && t@ == "placeholder-tenant"@) && c.token@
                == token@),
    {
        if token == String::from_str("invalid") {
            return Err(AuthError::InvalidToken);
        }
        Ok(
            AuthContext {
                user_id: String::from_str("placeholder-user"),
                tenant_id: Some(String::from_str("placeholder-tenant")),
                token,
            },
        )
    }

    /// Authenticate a request from its authorization header value, or fail it
    /// before any backend interaction. With the development bypass configured
    /// the fixed development identity is substituted; otherwise the header
    /// must carry a bearer credential that the validation accepts.
    pub fn authenticate(&self, header: Option<&str>) -> (r: Result<AuthContext, AuthError>)
        ensures
            match spec_auth_failure(self.skip_auth, header) {
                Some(ae) => r == Err::<AuthContext, AuthError>(ae),
                None => r matches Ok(c) && c.user_id@ == spec_auth_user(self.skip_auth) && (
                c.tenant_id matches Some(t) && t@ == spec_auth_tenant(self.skip_auth)) && (
                self.skip_auth ==> c.token@ == "dev-token"@) && (!self.skip_auth ==> (header
                    matches Some(h) && spec_bearer_token(h@) matches Some(tok) && c.token@ == tok)),
            },
    {
        if self.skip_auth {
            return Ok(
                AuthContext {
                    user_id: String::from_str("dev-user"),
                    tenant_id: Some(String::from_str("dev-tenant")),
                    token: String::from_str("dev-token"),
                },
            );
        }
        match header {
            None => Err(AuthError::MissingHeader),
            Some(h) => {
                match bearer_token(h) {
                    None => Err(AuthError::InvalidFormat),
                    Some(token) => self.validate_token(token),
                }
            },
        }
    }
}

/// A wrapper that pairs a protocol service with the authentication
/// interceptor that guards it.
#[derive(Clone)]
pub struct AuthService<S> {
    pub inner: S,
    pub interceptor: AuthInterceptor,
}

impl<S> AuthService<S> {
    /// Pair a service with an interceptor.
    pub fn new(inner: S, interceptor: AuthInterceptor) -> (r: Self)
        ensures
            r.inner == inner,
            r.interceptor == interceptor,
    {
        AuthService { inner, interceptor }
    }
}

} // verus!
