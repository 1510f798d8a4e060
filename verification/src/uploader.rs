//! The pre-flight sequence of a single-shot upload: path validation
//! first, then configuration resolution, then request construction.
//! Everything after this point is issuing the request and interpreting
//! the answer.

use vstd::prelude::*;

use crate::config::resolve_config;
use crate::config::resolved_url;
use crate::config::url_defaulted;
use crate::errors::UploadError;
use crate::request::auth_prefix;
use crate::request::build_request;
use crate::request::upload_path;
use crate::request::UploadRequest;

verus! {

/// Checks that the file to upload exists; `path_exists` is what the
/// caller's filesystem lookup said of `path`. A missing file fails
/// with `FileNotFound` before any credential or network work.
pub fn validate_path(path_exists: bool, path: &str) -> (r: Result<(), UploadError>)
    ensures
        path_exists <==> r is Ok,
        !path_exists ==> (r matches Err(e) && e matches UploadError::FileNotFound { path: p }
            && p@ == path@),
{
    if path_exists {
        Ok(())
    } else {
        Err(UploadError::FileNotFound { path: String::from_str(path) })
    }
}

/// A request ready to send, together with whether the base URL fell
/// back to the default (in which case the caller warns the user before
/// sending).
#[derive(Debug)]
pub struct PreparedUpload {
    pub request: UploadRequest,
    pub used_default_url: bool,
}

/// Runs every step that precedes network activity: path validation,
/// configuration resolution, request construction.
///
/// The checks run in a fixed order: a missing file is reported
/// first, whatever the environment holds, and a missing token second;
/// in both cases no request is produced, so nothing is sent. When both
/// checks pass, the produced request carries the resolved base URL
/// followed by the endpoint path, an `Authorization` value of the
/// exact form `Token ` + token, and a `Content-Length` equal to the
/// file's byte size.
pub fn prepare_upload(
    path_exists: bool,
    path: &str,
    api_token: Option<String>,
    token_error: &str,
    paperless_url: Option<String>,
    file_size: u64,
) -> (r: Result<PreparedUpload, UploadError>)
    ensures
        !path_exists ==> (r matches Err(e) && e matches UploadError::FileNotFound { path: p }
            && p@ == path@),
        path_exists && api_token is None ==> (r matches Err(e)
            && e matches UploadError::MissingCredential { cause } && cause@ == token_error@),
        api_token matches Some(token) ==> (path_exists ==> (r matches Ok(p) && p.request.url@
            == resolved_url(paperless_url) + upload_path() && p.request.authorization@
            == auth_prefix() + token@ && p.request.content_length == file_size
            && p.used_default_url == url_defaulted(paperless_url))),
{
    let checked = validate_path(path_exists, path);
    match checked {
        Err(e) => Err(e),
        Ok(()) => {
            match resolve_config(api_token, token_error, paperless_url) {
                Err(e) => Err(e),
                Ok(resolved) => {
                    let request = build_request(&resolved.config, file_size);
                    Ok(
                        PreparedUpload {
                            request,
                            used_default_url: resolved.used_default_url,
                        },
                    )
                },
            }
        },
    }
}

} // verus!
