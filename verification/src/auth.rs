use vstd::prelude::*;

verus! {

/// What reading the `x-api-key` header of a request gave.
#[derive(Debug, Clone)]
pub enum HeaderLookup {
    /// The header is there, with this value.
    Present(String),
    /// The request has no such header.
    Absent,
    /// The headers could not be read.
    Unreadable,
}

/// Why a request was not let through.
#[derive(Debug, Clone, Copy, PartialEq, Eq, Structural)]
pub enum AuthError {
    /// No `API_KEY` secret is configured.
    NotConfigured,
    /// The configured `API_KEY` secret is empty.
    EmptyKey,
    /// The request's key differs from the configured one.
    InvalidKey,
    /// The request carries no key.
    MissingKey,
    /// The request's headers could not be read.
    HeaderUnreadable,
    /// The key check did not succeed.
    Unauthorized,
}

impl AuthError {
    /// The text that reports the error.
    pub open spec fn spec_message(self) -> Seq<char> {
        match self {
            AuthError::NotConfigured => "API_KEY not configured"@,
            AuthError::EmptyKey => "API_KEY is empty"@,
            AuthError::InvalidKey => "Invalid API key"@,
            AuthError::MissingKey => "Missing API key"@,
            AuthError::HeaderUnreadable => "Error reading header"@,
            AuthError::Unauthorized => "Unauthorized"@,
        }
    }

    /// The text that reports the error, such as `Missing API key`.
    pub fn message(&self) -> (s: &'static str)
        ensures
            s@ == self.spec_message(),
    {
        match self {
            AuthError::NotConfigured => "API_KEY not configured",
            AuthError::EmptyKey => "API_KEY is empty",
            AuthError::InvalidKey => "Invalid API key",
            AuthError::MissingKey => "Missing API key",
            AuthError::HeaderUnreadable => "Error reading header",
            AuthError::Unauthorized => "Unauthorized",
        }
    }
}

/// The outcome of checking a request's key against the configured secret (`None` when the
/// secret cannot be read). A request is let through only with a non-empty configured key
/// that its header repeats exactly; the check never answers `Ok(false)`.
pub open spec fn spec_verify_api_key(secret: Option<String>, header: HeaderLookup) -> Result<
    bool,
    AuthError,
> {
    match secret {
        None => Err(AuthError::NotConfigured),
        Some(key) => if key@.len() == 0 {
            Err(AuthError::EmptyKey)
        } else {
            match header {
                HeaderLookup::Present(given) => if given@ == key@ {
                    Ok(true)
                } else {
                    Err(AuthError::InvalidKey)
                },
                HeaderLookup::Absent => Err(AuthError::MissingKey),
                HeaderLookup::Unreadable => Err(AuthError::HeaderUnreadable),
            }
        },
    }
}

/// Whether a key secret is configured: present and not empty.
pub open spec fn spec_auth_enabled(secret: Option<String>) -> bool {
    secret matches Some(key) && key@.len() > 0
}

/// Checks the request's `x-api-key` header against the configured `API_KEY` secret.
pub fn verify_api_key(secret: &Option<String>, header: &HeaderLookup) -> (r: Result<
    bool,
    AuthError,
>)
    ensures
        r == spec_verify_api_key(*secret, *header),
{
    let api_key = match secret {
        Some(key) => key,
        None => {
            return Err(AuthError::NotConfigured);
        },
    };
    if api_key.as_str().is_empty() {
        return Err(AuthError::EmptyKey);
    }
    match header {
        HeaderLookup::Present(key) => {
            if *key == *api_key {
                Ok(true)
            } else {
                Err(AuthError::InvalidKey)
            }
        },
        HeaderLookup::Absent => Err(AuthError::MissingKey),
        HeaderLookup::Unreadable => Err(AuthError::HeaderUnreadable),
    }
}

/// Whether requests are checked at all: the `API_KEY` secret is there and not empty.
pub fn is_auth_enabled(secret: &Option<String>) -> (enabled: bool)
    ensures
        enabled == spec_auth_enabled(*secret),
{
    match secret {
        Some(key) => !key.as_str().is_empty(),
        None => false,
    }
}

/// Whether the header was read and holds exactly `key`.
pub open spec fn header_holds(header: HeaderLookup, key: Seq<char>) -> bool {
    header matches HeaderLookup::Present(given) && given@ == key
}

/// What a route's key check gives: the request passes only where the key check said `true`.
pub open spec fn spec_check(secret: Option<String>, header: HeaderLookup) -> Result<(), AuthError> {
    match spec_verify_api_key(secret, header) {
        Ok(true) => Ok(()),
        Ok(false) => Err(AuthError::Unauthorized),
        Err(e) => Err(e),
    }
}

/// Law: the key check never answers a plain `false`; it lets the request through or says why not.
pub proof fn law_verify_never_false(secret: Option<String>, header: HeaderLookup)
    ensures
        spec_verify_api_key(secret, header) != Ok::<bool, AuthError>(false),
{
}

/// Law: a request passes a route's key check exactly when a non-empty key is configured and
/// the request's header holds that same key.
pub proof fn law_check_passes_iff_key_matches(secret: Option<String>, header: HeaderLookup)
    ensures
        spec_check(secret, header) is Ok <==> (spec_auth_enabled(secret) && header_holds(
            header,
            secret->0@,
        )),
{
}

/// Law: the configured key is let through exactly when key checking is enabled.
pub proof fn law_configured_key_passes(key: String)
    ensures
        spec_verify_api_key(Some(key), HeaderLookup::Present(key)) == Ok::<bool, AuthError>(true)
            <==> spec_auth_enabled(Some(key)),
{
}

/// Law: without a usable configured key, every request is refused, whatever its header.
pub proof fn law_unconfigured_refuses_all(secret: Option<String>, header: HeaderLookup)
    requires
        !spec_auth_enabled(secret),
    ensures
        spec_verify_api_key(secret, header) is Err,
{
}


/// Law: why a request is refused. Without a readable secret the key is not configured; with
/// an empty one it is empty; with a usable one, a request without the header misses the key,
/// one whose headers cannot be read fails to read it, and one with a different key has an
/// invalid key. A request with the configured key passes.
pub proof fn law_refusal_reasons(secret: Option<String>, header: HeaderLookup)
    ensures
        secret is None ==> spec_verify_api_key(secret, header) == Err::<bool, AuthError>(AuthError::NotConfigured),
        (secret matches Some(k) && k@.len() == 0) ==> spec_verify_api_key(secret, header) == Err::<bool, AuthError>(
            AuthError::EmptyKey,
        ),
        spec_auth_enabled(secret) && header is Absent ==> spec_verify_api_key(secret, header) == Err::<bool, AuthError>(
            AuthError::MissingKey,
        ),
        spec_auth_enabled(secret) && header is Unreadable ==> spec_verify_api_key(secret, header) == Err::<
            bool,
            AuthError,
        >(AuthError::HeaderUnreadable),
        spec_auth_enabled(secret) && header is Present && !header_holds(header, secret->0@)
            ==> spec_verify_api_key(secret, header) == Err::<bool, AuthError>(AuthError::InvalidKey),
        spec_auth_enabled(secret) && header_holds(header, secret->0@) ==> spec_verify_api_key(secret, header)
            == Ok::<bool, AuthError>(true),
{
}

} // verus!
