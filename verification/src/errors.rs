//! The error taxonomy of the uploader, with the user-facing message
//! and the process exit code of each failure class.

use vstd::prelude::*;

use crate::decimal::decimal_rep;
use crate::decimal::u64_to_decimal;

verus! {

/// Every way a single-shot upload can fail. Each variant is terminal:
/// the caller reports the message and exits with the variant's code.
#[derive(Debug, PartialEq, Eq)]
pub enum UploadError {
    /// The given path does not exist; nothing was sent.
    FileNotFound { path: String },
    /// The token environment variable is absent; nothing was sent.
    MissingCredential { cause: String },
    /// The request could not be completed (connection, DNS, timeout).
    TransportError { cause: String },
    /// The server answered with a non-success status.
    ServerRejected { status: u16, body: String },
    /// Some other filesystem failure while reading the file.
    IoError { cause: String },
}

/// The exact user-facing message of each failure.
pub open spec fn spec_message(e: UploadError) -> Seq<char> {
    match e {
        UploadError::FileNotFound { path } => "File "@ + path@ + " not found"@,
        UploadError::MissingCredential { cause } => "Couldn't find PAPERLESS_API_TOKEN: "@
            + cause@,
        UploadError::TransportError { cause } => "Request failed: "@ + cause@,
        UploadError::ServerRejected { status, body } => "Error uploading file: "@ + decimal_rep(
            status as nat,
        ) + ". Server response: "@ + body@,
        UploadError::IoError { cause } => "I/O error: "@ + cause@,
    }
}

/// The process exit code of each failure class: non-zero, and distinct
/// per class.
pub open spec fn spec_exit_code(e: UploadError) -> int {
    match e {
        UploadError::FileNotFound { .. } => 1,
        UploadError::MissingCredential { .. } => 2,
        UploadError::TransportError { .. } => 3,
        UploadError::ServerRejected { .. } => 4,
        UploadError::IoError { .. } => 5,
    }
}

/// Whether two errors belong to the same failure class.
pub open spec fn same_failure_class(a: UploadError, b: UploadError) -> bool {
    ||| (a is FileNotFound && b is FileNotFound)
    ||| (a is MissingCredential && b is MissingCredential)
    ||| (a is TransportError && b is TransportError)
    ||| (a is ServerRejected && b is ServerRejected)
    ||| (a is IoError && b is IoError)
}

impl UploadError {
    /// The human-readable report of this failure.
    pub fn message(&self) -> (r: String)
        ensures
            r@ == spec_message(*self),
    {
        let r = match self {
            UploadError::FileNotFound { path } => {
                let mut s = String::from_str("File ");
                s.append(path.as_str());
                s.append(" not found");
                s
            },
            UploadError::MissingCredential { cause } => {
                let mut s = String::from_str("Couldn't find PAPERLESS_API_TOKEN: ");
                s.append(cause.as_str());
                s
            },
            UploadError::TransportError { cause } => {
                let mut s = String::from_str("Request failed: ");
                s.append(cause.as_str());
                s
            },
            UploadError::ServerRejected { status, body } => {
                let mut s = String::from_str("Error uploading file: ");
                let code = u64_to_decimal(*status as u64);
                s.append(code.as_str());
                s.append(". Server response: ");
                s.append(body.as_str());
                s
            },
            UploadError::IoError { cause } => {
                let mut s = String::from_str("I/O error: ");
                s.append(cause.as_str());
                s
            },
        };
        proof {
            assert(r@ =~= spec_message(*self));
        }
        r
    }

    /// The exit code the process ends with for this failure.
    pub fn exit_code(&self) -> (r: i32)
        ensures
            r == spec_exit_code(*self),
    {
        match self {
            UploadError::FileNotFound { .. } => 1,
            UploadError::MissingCredential { .. } => 2,
            UploadError::TransportError { .. } => 3,
            UploadError::ServerRejected { .. } => 4,
            UploadError::IoError { .. } => 5,
        }
    }
}

/// Every failure class exits with a non-zero code: a failed run is
/// never mistaken for a successful one.
pub proof fn lemma_exit_code_nonzero(e: UploadError)
    ensures
        spec_exit_code(e) != 0,
{
}

/// Exit codes are distinct per failure class: two failures share a
/// code only when they are of the same kind.
pub proof fn lemma_exit_code_distinct(a: UploadError, b: UploadError)
    ensures
        spec_exit_code(a) == spec_exit_code(b) ==> same_failure_class(a, b),
{
}

} // verus!
