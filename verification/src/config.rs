//! Resolution of the two configuration values: the API token
//! (required) and the base URL (optional, with a default).

use vstd::prelude::*;

use crate::errors::UploadError;

verus! {

/// The base URL used when the URL environment variable is absent or
/// empty.
pub open spec fn default_url() -> Seq<char> {
    "http://localhost:8000"@
}

/// The configuration an upload runs with. Both values are fixed at
/// startup and never change afterwards.
#[derive(Debug)]
pub struct PaperlessConfig {
    /// Base URL of the server, without the endpoint path.
    pub url: String,
    /// The credential sent in the `Authorization` header.
    pub api_token: String,
}

/// The base URL that resolution settles on: the variable's value when
/// it is present and non-empty, the default otherwise.
pub open spec fn resolved_url(paperless_url: Option<String>) -> Seq<char> {
    match paperless_url {
        Some(u) => if u@.len() > 0 {
            u@
        } else {
            default_url()
        },
        None => default_url(),
    }
}

/// Whether resolution falls back to the default base URL.
pub open spec fn url_defaulted(paperless_url: Option<String>) -> bool {
    match paperless_url {
        Some(u) => u@.len() == 0,
        None => true,
    }
}

/// A resolved configuration, together with whether the base URL fell
/// back to the default (in which case the caller warns the user).
#[derive(Debug)]
pub struct ResolvedConfig {
    pub config: PaperlessConfig,
    /// True exactly when the URL variable was absent or empty.
    pub used_default_url: bool,
}

/// Resolves the configuration from the environment values the caller
/// read: `api_token` and `paperless_url` are the variables' values
/// (`None` when absent), and `token_error` is the lookup failure text
/// reported when the token is missing.
///
/// The token is required: without it resolution fails before any
/// network work. The URL falls back to `http://localhost:8000` when
/// its variable is absent or empty.
pub fn resolve_config(api_token: Option<String>, token_error: &str, paperless_url: Option<String>)
    -> (r: Result<ResolvedConfig, UploadError>)
    ensures
        api_token is None ==> (r matches Err(e) && e matches UploadError::MissingCredential {
            cause,
        } && cause@ == token_error@),
        api_token matches Some(token) ==> (r matches Ok(rc) && rc.config.api_token@ == token@
            && rc.config.url@ == resolved_url(paperless_url) && rc.used_default_url
            == url_defaulted(paperless_url)),
{
    match api_token {
        None => Err(
            UploadError::MissingCredential { cause: String::from_str(token_error) },
        ),
        Some(token) => {
            let (url, used_default_url): (String, bool) = match paperless_url {
                Some(u) => {
                    if !u.as_str().is_empty() {
                        (u, false)
                    } else {
                        (String::from_str("http://localhost:8000"), true)
                    }
                },
                None => (String::from_str("http://localhost:8000"), true),
            };
            Ok(
                ResolvedConfig {
                    config: PaperlessConfig { url, api_token: token },
                    used_default_url,
                },
            )
        },
    }
}

} // verus!
