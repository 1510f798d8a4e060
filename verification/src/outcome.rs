//! Interpretation of what came back from the network: either a
//! transport failure or an HTTP response, turned into the upload's
//! result.

use vstd::prelude::*;

use crate::errors::UploadError;

verus! {

/// The placeholder used when a rejecting response's body cannot be
/// read as text.
pub open spec fn unreadable_body_placeholder() -> Seq<char> {
    "Failed to read response text"@
}

/// What the server answered: the status code, and the body as text
/// (`None` when the body could not be decoded).
#[derive(Debug)]
pub struct HttpResponse {
    pub status: u16,
    pub body: Option<String>,
}

/// Whether a status code counts as success: any 2xx.
pub open spec fn spec_is_success(status: u16) -> bool {
    200 <= status < 300
}

/// The body text a rejection reports: the response body, or the fixed
/// placeholder when it was unreadable.
pub open spec fn rejection_body(body: Option<String>) -> Seq<char> {
    match body {
        Some(b) => b@,
        None => unreadable_body_placeholder(),
    }
}

/// Whether a status code counts as success: any 2xx.
#[verifier::when_used_as_spec(spec_is_success)]
pub fn is_success(status: u16) -> (r: bool)
    ensures
        r == spec_is_success(status),
{
    200 <= status && status < 300
}

/// Turns what the network handed back into the upload's result.
///
/// A transport failure becomes `TransportError` with the underlying
/// cause. A response with a 2xx status is success; any other status
/// becomes `ServerRejected`, carrying the status code and the body
/// text (or the fixed placeholder when the body was unreadable).
pub fn upload_outcome(sent: Result<HttpResponse, String>) -> (r: Result<(), UploadError>)
    ensures
        sent matches Err(c) ==> (r matches Err(e) && e matches UploadError::TransportError {
            cause,
        } && cause@ == c@),
        sent matches Ok(resp) ==> ((spec_is_success(resp.status) ==> r is Ok) && (
        !spec_is_success(resp.status) ==> (r matches Err(e)
            && e matches UploadError::ServerRejected { status, body } && status == resp.status
            && body@ == rejection_body(resp.body)))),
{
    match sent {
        Err(cause) => Err(UploadError::TransportError { cause }),
        Ok(resp) => {
            if is_success(resp.status) {
                Ok(())
            } else {
                let body = match resp.body {
                    Some(b) => b,
                    None => String::from_str("Failed to read response text"),
                };
                Err(UploadError::ServerRejected { status: resp.status, body })
            }
        },
    }
}

} // verus!
