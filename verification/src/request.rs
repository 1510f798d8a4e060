//! Construction of the one outgoing upload request: endpoint URL,
//! `Authorization` header, and `Content-Length`.

use vstd::prelude::*;

use crate::config::PaperlessConfig;
use crate::decimal::decimal_rep;
use crate::decimal::u64_to_decimal;

verus! {

/// The fixed endpoint path the upload is posted to.
pub open spec fn upload_path() -> Seq<char> {
    "/api/documents/post_document/"@
}

/// The prefix of the `Authorization` header value.
pub open spec fn auth_prefix() -> Seq<char> {
    "Token "@
}

/// Everything the caller needs to issue the HTTP POST: where to send
/// it, the `Authorization` header value, and the `Content-Length`.
/// The body itself is the raw bytes of the file, sent as one multipart
/// part named `document`.
#[derive(Debug)]
pub struct UploadRequest {
    /// Full request URL: the base URL followed by the endpoint path.
    pub url: String,
    /// The `Authorization` header value, exactly `Token ` followed by
    /// the API token.
    pub authorization: String,
    /// The `Content-Length` header value: the file's size in bytes,
    /// read from filesystem metadata.
    pub content_length: u64,
}

impl UploadRequest {
    /// The `Content-Length` header value as it appears on the wire.
    pub fn content_length_value(&self) -> (r: String)
        ensures
            r@ == decimal_rep(self.content_length as nat),
    {
        u64_to_decimal(self.content_length)
    }
}

/// Builds the request for uploading a file of `file_size` bytes under
/// the given configuration.
///
/// The `Authorization` value always has the exact form `Token ` + the
/// configured token, and the `Content-Length` equals the file's byte
/// size exactly.
pub fn build_request(config: &PaperlessConfig, file_size: u64) -> (r: UploadRequest)
    ensures
        r.url@ == config.url@ + upload_path(),
        r.authorization@ == auth_prefix() + config.api_token@,
        r.content_length == file_size,
{
    let mut url = config.url.clone();
    url.append("/api/documents/post_document/");
    let mut authorization = String::from_str("Token ");
    authorization.append(config.api_token.as_str());
    UploadRequest { url, authorization, content_length: file_size }
}

} // verus!
