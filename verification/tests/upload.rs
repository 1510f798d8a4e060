use paperless_upload::config::resolve_config;
use paperless_upload::config::PaperlessConfig;
use paperless_upload::errors::UploadError;
use paperless_upload::outcome::upload_outcome;
use paperless_upload::outcome::HttpResponse;
use paperless_upload::request::build_request;
use paperless_upload::uploader::prepare_upload;
use paperless_upload::uploader::validate_path;

const TOKEN_LOOKUP_ERROR: &str = "environment variable not found";

fn some(s: &str) -> Option<String> {
    Some(s.to_string())
}

#[test]
fn missing_file_is_rejected_before_anything_else() {
    let r = validate_path(false, "no_such_file.pdf");
    let err = r.unwrap_err();
    assert_eq!(
        err,
        UploadError::FileNotFound {
            path: "no_such_file.pdf".to_string()
        }
    );
    assert_eq!(err.message(), "File no_such_file.pdf not found");
    assert_ne!(err.exit_code(), 0);
}

#[test]
fn existing_file_passes_validation() {
    assert!(validate_path(true, "document.pdf").is_ok());
}

#[test]
fn missing_token_is_rejected() {
    let r = resolve_config(None, TOKEN_LOOKUP_ERROR, some("http://paperless.local"));
    let err = r.unwrap_err();
    assert_eq!(
        err,
        UploadError::MissingCredential {
            cause: TOKEN_LOOKUP_ERROR.to_string()
        }
    );
    assert_eq!(
        err.message(),
        "Couldn't find PAPERLESS_API_TOKEN: environment variable not found"
    );
    assert_ne!(err.exit_code(), 0);
}

#[test]
fn absent_url_falls_back_to_default_with_warning() {
    let r = resolve_config(some("fake_token"), TOKEN_LOOKUP_ERROR, None).unwrap();
    assert_eq!(r.config.url, "http://localhost:8000");
    assert!(r.used_default_url);
    assert_eq!(r.config.api_token, "fake_token");
}

#[test]
fn empty_url_falls_back_to_default_with_warning() {
    let r = resolve_config(some("fake_token"), TOKEN_LOOKUP_ERROR, some("")).unwrap();
    assert_eq!(r.config.url, "http://localhost:8000");
    assert!(r.used_default_url);
}

#[test]
fn present_url_is_kept_without_warning() {
    let r = resolve_config(
        some("fake_token"),
        TOKEN_LOOKUP_ERROR,
        some("http://paperless.local:9000"),
    )
    .unwrap();
    assert_eq!(r.config.url, "http://paperless.local:9000");
    assert!(!r.used_default_url);
}

#[test]
fn authorization_header_has_the_token_form() {
    let config = PaperlessConfig {
        url: "http://localhost:8000".to_string(),
        api_token: "fake_token".to_string(),
    };
    let request = build_request(&config, 13);
    assert_eq!(request.authorization, "Token fake_token");
}

#[test]
fn request_url_is_base_url_plus_endpoint_path() {
    let config = PaperlessConfig {
        url: "http://paperless.local:9000".to_string(),
        api_token: "fake_token".to_string(),
    };
    let request = build_request(&config, 13);
    assert_eq!(
        request.url,
        "http://paperless.local:9000/api/documents/post_document/"
    );
}

#[test]
fn content_length_equals_file_size() {
    let config = PaperlessConfig {
        url: "http://localhost:8000".to_string(),
        api_token: "fake_token".to_string(),
    };
    for size in [0u64, 1, 13, 4096] {
        let request = build_request(&config, size);
        assert_eq!(request.content_length, size);
        assert_eq!(request.content_length_value(), size.to_string());
    }
    let request = build_request(&config, u64::MAX);
    assert_eq!(request.content_length_value(), "18446744073709551615");
}

#[test]
fn test_upload_file_success() {
    // A server that answers 201 to the POST: the upload succeeds.
    let result = upload_outcome(Ok(HttpResponse {
        status: 201,
        body: None,
    }));
    assert!(result.is_ok());
}

#[test]
fn test_upload_file_failure() {
    // A server that answers 400 with body "Bad Request": the upload
    // fails and the report carries both the status and the body.
    let result = upload_outcome(Ok(HttpResponse {
        status: 400,
        body: Some("Bad Request".to_string()),
    }));
    let err = result.unwrap_err();
    assert_eq!(
        err,
        UploadError::ServerRejected {
            status: 400,
            body: "Bad Request".to_string()
        }
    );
    let message = err.message();
    assert!(message.contains("400"));
    assert!(message.contains("Bad Request"));
    assert_eq!(
        message,
        "Error uploading file: 400. Server response: Bad Request"
    );
    assert_ne!(err.exit_code(), 0);
}

#[test]
fn every_2xx_status_is_success() {
    for status in 200u16..300 {
        let result = upload_outcome(Ok(HttpResponse { status, body: None }));
        assert!(result.is_ok());
    }
    for status in [100u16, 199, 300, 301, 404, 500] {
        let result = upload_outcome(Ok(HttpResponse { status, body: None }));
        assert!(result.is_err());
    }
}

#[test]
fn unreadable_body_gets_the_placeholder() {
    let err = upload_outcome(Ok(HttpResponse {
        status: 500,
        body: None,
    }))
    .unwrap_err();
    assert_eq!(
        err,
        UploadError::ServerRejected {
            status: 500,
            body: "Failed to read response text".to_string()
        }
    );
    assert_eq!(
        err.message(),
        "Error uploading file: 500. Server response: Failed to read response text"
    );
}

#[test]
fn transport_failure_carries_the_cause() {
    let err = upload_outcome(Err("connection refused".to_string())).unwrap_err();
    assert_eq!(
        err,
        UploadError::TransportError {
            cause: "connection refused".to_string()
        }
    );
    assert_eq!(err.message(), "Request failed: connection refused");
    assert_ne!(err.exit_code(), 0);
}

#[test]
fn io_error_carries_the_cause() {
    let err = UploadError::IoError {
        cause: "permission denied".to_string(),
    };
    assert_eq!(err.message(), "I/O error: permission denied");
    assert_ne!(err.exit_code(), 0);
}

#[test]
fn exit_codes_are_nonzero_and_distinct_per_class() {
    let errors = [
        UploadError::FileNotFound {
            path: "a".to_string(),
        },
        UploadError::MissingCredential {
            cause: "b".to_string(),
        },
        UploadError::TransportError {
            cause: "c".to_string(),
        },
        UploadError::ServerRejected {
            status: 400,
            body: "d".to_string(),
        },
        UploadError::IoError {
            cause: "e".to_string(),
        },
    ];
    let codes: Vec<i32> = errors.iter().map(|e| e.exit_code()).collect();
    for (i, a) in codes.iter().enumerate() {
        assert_ne!(*a, 0);
        for b in codes.iter().skip(i + 1) {
            assert_ne!(a, b);
        }
    }
}

#[test]
fn missing_file_is_reported_before_missing_token() {
    let r = prepare_upload(false, "gone.pdf", None, TOKEN_LOOKUP_ERROR, None, 13);
    assert_eq!(
        r.unwrap_err(),
        UploadError::FileNotFound {
            path: "gone.pdf".to_string()
        }
    );
}

#[test]
fn prepare_upload_stops_on_missing_token() {
    let r = prepare_upload(true, "document.pdf", None, TOKEN_LOOKUP_ERROR, None, 13);
    assert_eq!(
        r.unwrap_err(),
        UploadError::MissingCredential {
            cause: TOKEN_LOOKUP_ERROR.to_string()
        }
    );
}

#[test]
fn prepare_upload_builds_the_full_request() {
    let prepared = prepare_upload(
        true,
        "document.pdf",
        some("fake_token"),
        TOKEN_LOOKUP_ERROR,
        None,
        13,
    )
    .unwrap();
    assert!(prepared.used_default_url);
    assert_eq!(
        prepared.request.url,
        "http://localhost:8000/api/documents/post_document/"
    );
    assert_eq!(prepared.request.authorization, "Token fake_token");
    assert_eq!(prepared.request.content_length, 13);
    assert_eq!(prepared.request.content_length_value(), "13");
}
