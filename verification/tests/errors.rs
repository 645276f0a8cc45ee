use nget::error::{headed, NgetError};
use nget::transfer::Failure;

#[test]
fn descriptions_open_with_the_heading() {
    let cases: Vec<(NgetError, &str)> = vec![
        (NgetError::InvalidUrl("x".to_string()), "Invalid URL: x"),
        (NgetError::InvalidTcpUrl("x".to_string()), "Invalid TCP URL: x"),
        (NgetError::InvalidUri("x".to_string()), "Invalid URI: x"),
        (NgetError::TcpConnectionError("x".to_string()), "TCP Connection Error: x"),
        (NgetError::DnsResolutionError("x".to_string()), "DNS Resolution Error: x"),
        (NgetError::InvalidDomain("x".to_string()), "Invalid Domain: x"),
        (NgetError::TlsError("x".to_string()), "TLS Error: x"),
        (NgetError::ReqwestError("x".to_string()), "Reqwest Error: x"),
        (NgetError::ResolveAddressError("x".to_string()), "Unable to resolve address: x"),
        (NgetError::H2Error("x".to_string()), "H2 Error: x"),
        (NgetError::UrlParseError("x".to_string()), "URL Parse Error: x"),
        (NgetError::InvalidDnsNameError("x".to_string()), "Invalid DNS Name Error: x"),
        (NgetError::ConnectionError("x".to_string()), "Connection Error: x"),
        (NgetError::ToStringError("x".to_string()), "To String Error: x"),
        (NgetError::UnsupportedHTTPVersion("x".to_string()), "Unsupported HTTP Version: x"),
        (NgetError::HttpRequest("x".to_string()), "HTTP request failed: x"),
        (NgetError::InvalidStatusCode("x".to_string()), "Invalid HTTP status code: x"),
        (NgetError::RedirectionLoop, "HTTP redirection loop detected."),
        (NgetError::FileError("x".to_string()), "Failed to save file: x"),
        (NgetError::FileChecksumMismatch("x".to_string()), "Checksum validation failed for file: x"),
        (NgetError::FileLocked("x".to_string()), "File already exists and is locked: x"),
        (NgetError::IoError("x".to_string()), "IO Error: x"),
        (NgetError::ClientError("x".to_string()), "Unable to build HTTP Client: x"),
        (NgetError::ConfigurationError("x".to_string()), "Configuration error: x"),
        (NgetError::NetworkError("x".to_string()), "Network error: x"),
        (NgetError::DnsResolutionFailed("x".to_string()), "DNS resolution failed for URL: x"),
        (NgetError::ConnectionTimeout("x".to_string()), "Connection timeout for URL: x"),
        (NgetError::ReadTimeout("x".to_string()), "Read timeout for URL: x"),
        (NgetError::TooManyRetries("x".to_string()), "Too many retries for URL: x"),
        (NgetError::RateLimitExceeded, "Rate limit exceeded. Please wait before retrying."),
        (NgetError::Unexpected("x".to_string()), "Unexpected error: x"),
        (NgetError::Unknown, "Unknown error occurred."),
    ];
    for (error, expected) in cases {
        assert_eq!(error.describe(), expected);
    }
}

#[test]
fn description_keeps_an_empty_detail() {
    assert_eq!(NgetError::FileError(String::new()).describe(), "Failed to save file: ");
}

#[test]
fn a_bare_message_is_an_unexpected_error() {
    let error = NgetError::from("something odd".to_string());
    match error {
        NgetError::Unexpected(message) => assert_eq!(message, "something odd"),
        other => panic!("unexpected variant: {:?}", other),
    }
}

#[test]
fn headed_joins_heading_and_detail() {
    assert_eq!(headed("a: ", "b"), "a: b");
    assert_eq!(headed("", "b"), "b");
    assert_eq!(headed("a", ""), "a");
}

#[test]
fn failures_become_errors() {
    match Failure::Resolve.into_error("no such host") {
        NgetError::ResolveAddressError(m) => assert_eq!(m, "no such host"),
        other => panic!("unexpected variant: {:?}", other),
    }
    match Failure::Send.into_error("connection refused") {
        NgetError::HttpRequest(m) => assert_eq!(m, "Request failed: connection refused"),
        other => panic!("unexpected variant: {:?}", other),
    }
    match Failure::Http2Unsupported.into_error("UserUnsupportedVersion") {
        NgetError::UnsupportedHTTPVersion(m) => assert_eq!(m, "UserUnsupportedVersion"),
        other => panic!("unexpected variant: {:?}", other),
    }
    match Failure::NotFound.into_error("ignored") {
        NgetError::InvalidUrl(m) => {
            assert_eq!(m, "URL is Invalid. Please make sure the URL is correct.")
        }
        other => panic!("unexpected variant: {:?}", other),
    }
    match Failure::Status(505).into_error("ignored") {
        NgetError::HttpRequest(m) => assert_eq!(m, "Unexpected status: 505"),
        other => panic!("unexpected variant: {:?}", other),
    }
    match Failure::Status(u16::MAX).into_error("") {
        NgetError::HttpRequest(m) => assert_eq!(m, "Unexpected status: 65535"),
        other => panic!("unexpected variant: {:?}", other),
    }
    match Failure::Open.into_error("permission denied") {
        NgetError::FileError(m) => assert_eq!(m, "Failed to open file: permission denied"),
        other => panic!("unexpected variant: {:?}", other),
    }
    match Failure::Read.into_error("reset") {
        NgetError::HttpRequest(m) => assert_eq!(m, "Failed to read chunk: reset"),
        other => panic!("unexpected variant: {:?}", other),
    }
    match Failure::Write.into_error("disk full") {
        NgetError::FileError(m) => assert_eq!(m, "Failed to write file: disk full"),
        other => panic!("unexpected variant: {:?}", other),
    }
}
