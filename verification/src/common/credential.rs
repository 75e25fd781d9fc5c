//! Credential handling for the Alpaca adapter.
//!
//! Alpaca authenticates REST requests with a static key/secret header pair and authenticates
//! WebSocket streams with the same values sent in an auth frame. There is no request signing.

use vstd::prelude::*;

use super::{
    consts::{ENV_API_KEY_ID, ENV_API_SECRET_KEY},
    text::{is_blank, str_is_blank},
};

verus! {

/// Returns the `(api_key, api_secret)` environment variable names.
pub fn credential_env_vars() -> (res: (&'static str, &'static str))
    ensures
        res.0@ == ENV_API_KEY_ID@,
        res.1@ == ENV_API_SECRET_KEY@,
{
    (ENV_API_KEY_ID, ENV_API_SECRET_KEY)
}

/// Alpaca API key pair.
///
/// The type has no `Debug` or `Display`; [`AlpacaCredential::redacted`] is the only rendering,
/// and it names neither value.
#[derive(Clone)]
pub struct AlpacaCredential {
    api_key: String,
    api_secret: String,
}

impl View for AlpacaCredential {
    type V = (Seq<char>, Seq<char>);

    closed spec fn view(&self) -> (Seq<char>, Seq<char>) {
        (self.api_key@, self.api_secret@)
    }
}

/// Why credentials could not be resolved.
#[derive(Copy, Clone, Debug, PartialEq, Eq, Structural)]
pub enum CredentialError {
    /// The key, the secret or both are unset or empty.
    Missing,
}

impl CredentialError {
    /// Describes the error, naming the variables to set.
    pub fn message(&self) -> (res: &'static str)
        ensures
            res@ == "Missing Alpaca credentials: set APCA_API_KEY_ID and APCA_API_SECRET_KEY"@,
    {
        "Missing Alpaca credentials: set APCA_API_KEY_ID and APCA_API_SECRET_KEY"
    }
}

/// The value a credential part resolves to: an explicit value unless it is blank, else the
/// environment's value unless that is empty.
pub open spec fn resolve_part(explicit: Option<Seq<char>>, env: Option<Seq<char>>) -> Option<
    Seq<char>,
> {
    match explicit {
        Some(v) if !is_blank(v) => Some(v),
        _ => match env {
            Some(e) if e.len() > 0 => Some(e),
            _ => None,
        },
    }
}

/// The pair that resolution yields, when both parts resolve.
pub open spec fn resolve_pair(
    key: Option<Seq<char>>,
    secret: Option<Seq<char>>,
    env_key: Option<Seq<char>>,
    env_secret: Option<Seq<char>>,
) -> Option<(Seq<char>, Seq<char>)> {
    match (resolve_part(key, env_key), resolve_part(secret, env_secret)) {
        (Some(k), Some(s)) => Some((k, s)),
        _ => None,
    }
}

/// The view of an optional string slice.
pub open spec fn opt_str_view(v: Option<&str>) -> Option<Seq<char>> {
    match v {
        Some(s) => Some(s@),
        None => None,
    }
}

/// The view of an optional owned string.
pub open spec fn opt_string_view(v: Option<String>) -> Option<Seq<char>> {
    match v {
        Some(s) => Some(s@),
        None => None,
    }
}

fn resolve_one(explicit: Option<&str>, env: Option<String>) -> (res: Option<String>)
    ensures
        opt_string_view(res) == resolve_part(opt_str_view(explicit), opt_string_view(env)),
{
    if let Some(v) = explicit {
        if !str_is_blank(v) {
            return Some(String::from_str(v));
        }
    }
    match env {
        Some(e) => {
            if e.as_str().unicode_len() > 0 {
                Some(e)
            } else {
                None
            }
        },
        None => None,
    }
}

impl AlpacaCredential {
    /// Creates a new [`AlpacaCredential`] instance.
    pub fn new(api_key: String, api_secret: String) -> (res: Self)
        ensures
            res@ == (api_key@, api_secret@),
    {
        Self { api_key, api_secret }
    }

    /// Resolves credentials from explicit values, falling back to the values the credential
    /// environment variables hold ([`credential_env_vars`]), and returns `None` when neither
    /// yields a complete pair.
    ///
    /// A blank explicit value is not a credential, and an empty environment value is unset.
    pub fn resolve(
        api_key: Option<&str>,
        api_secret: Option<&str>,
        env_key: Option<String>,
        env_secret: Option<String>,
    ) -> (res: Option<Self>)
        ensures
            res matches Some(c) ==> resolve_pair(
                opt_str_view(api_key),
                opt_str_view(api_secret),
                opt_string_view(env_key),
                opt_string_view(env_secret),
            ) == Some(c@),
            res is None ==> resolve_pair(
                opt_str_view(api_key),
                opt_str_view(api_secret),
                opt_string_view(env_key),
                opt_string_view(env_secret),
            ) is None,
    {
        let key = resolve_one(api_key, env_key);
        let secret = resolve_one(api_secret, env_secret);
        match (key, secret) {
            (Some(k), Some(s)) => Some(Self::new(k, s)),
            _ => None,
        }
    }

    /// Loads credentials from the values the two credential environment variables hold.
    ///
    /// Fails with [`CredentialError::Missing`] when either is unset or empty.
    pub fn from_env(env_key: Option<String>, env_secret: Option<String>) -> (res: Result<
        Self,
        CredentialError,
    >)
        ensures
            res matches Ok(c) ==> resolve_pair(
                None,
                None,
                opt_string_view(env_key),
                opt_string_view(env_secret),
            ) == Some(c@),
            res is Err ==> resolve_pair(
                None,
                None,
                opt_string_view(env_key),
                opt_string_view(env_secret),
            ) is None,
    {
        match Self::resolve(None, None, env_key, env_secret) {
            Some(c) => Ok(c),
            None => Err(CredentialError::Missing),
        }
    }

    /// Returns the API key ID.
    pub fn api_key(&self) -> (res: &str)
        ensures
            res@ == self@.0,
    {
        self.api_key.as_str()
    }

    /// Returns the API secret key.
    ///
    /// Callers must not log or otherwise persist the returned value.
    pub fn api_secret(&self) -> (res: &str)
        ensures
            res@ == self@.1,
    {
        self.api_secret.as_str()
    }

    /// Renders the credential for logs without either value.
    pub fn redacted(&self) -> (res: &'static str)
        ensures
            res@ == "AlpacaCredential(<redacted>)"@,
    {
        "AlpacaCredential(<redacted>)"
    }
}

} // verus!
