use vstd::prelude::*;

verus! {

/// Everything that can end a download, a client construction or a lookup.
///
/// Where a failure comes from another crate, the variant holds the text that
/// crate gave for it.
#[derive(Debug, Clone)]
pub enum NgetError {
    InvalidUrl(String),
    InvalidTcpUrl(String),
    InvalidUri(String),
    TcpConnectionError(String),
    DnsResolutionError(String),
    InvalidDomain(String),
    TlsError(String),
    ReqwestError(String),
    ResolveAddressError(String),
    H2Error(String),
    UrlParseError(String),
    InvalidDnsNameError(String),
    ConnectionError(String),
    ToStringError(String),
    UnsupportedHTTPVersion(String),
    HttpRequest(String),
    InvalidStatusCode(String),
    RedirectionLoop,
    FileError(String),
    FileChecksumMismatch(String),
    FileLocked(String),
    IoError(String),
    ClientError(String),
    ConfigurationError(String),
    NetworkError(String),
    DnsResolutionFailed(String),
    ConnectionTimeout(String),
    ReadTimeout(String),
    TooManyRetries(String),
    RateLimitExceeded,
    Unexpected(String),
    Unknown,
}

impl NgetError {
    /// The fixed words that open the description of an error.
    pub open spec fn heading(self) -> Seq<char> {
        match self {
            NgetError::InvalidUrl(_) => "Invalid URL: "@,
            NgetError::InvalidTcpUrl(_) => "Invalid TCP URL: "@,
            NgetError::InvalidUri(_) => "Invalid URI: "@,
            NgetError::TcpConnectionError(_) => "TCP Connection Error: "@,
            NgetError::DnsResolutionError(_) => "DNS Resolution Error: "@,
            NgetError::InvalidDomain(_) => "Invalid Domain: "@,
            NgetError::TlsError(_) => "TLS Error: "@,
            NgetError::ReqwestError(_) => "Reqwest Error: "@,
            NgetError::ResolveAddressError(_) => "Unable to resolve address: "@,
            NgetError::H2Error(_) => "H2 Error: "@,
            NgetError::UrlParseError(_) => "URL Parse Error: "@,
            NgetError::InvalidDnsNameError(_) => "Invalid DNS Name Error: "@,
            NgetError::ConnectionError(_) => "Connection Error: "@,
            NgetError::ToStringError(_) => "To String Error: "@,
            NgetError::UnsupportedHTTPVersion(_) => "Unsupported HTTP Version: "@,
            NgetError::HttpRequest(_) => "HTTP request failed: "@,
            NgetError::InvalidStatusCode(_) => "Invalid HTTP status code: "@,
            NgetError::RedirectionLoop => "HTTP redirection loop detected."@,
            NgetError::FileError(_) => "Failed to save file: "@,
            NgetError::FileChecksumMismatch(_) => "Checksum validation failed for file: "@,
            NgetError::FileLocked(_) => "File already exists and is locked: "@,
            NgetError::IoError(_) => "IO Error: "@,
            NgetError::ClientError(_) => "Unable to build HTTP Client: "@,
            NgetError::ConfigurationError(_) => "Configuration error: "@,
            NgetError::NetworkError(_) => "Network error: "@,
            NgetError::DnsResolutionFailed(_) => "DNS resolution failed for URL: "@,
            NgetError::ConnectionTimeout(_) => "Connection timeout for URL: "@,
            NgetError::ReadTimeout(_) => "Read timeout for URL: "@,
            NgetError::TooManyRetries(_) => "Too many retries for URL: "@,
            NgetError::RateLimitExceeded => "Rate limit exceeded. Please wait before retrying."@,
            NgetError::Unexpected(_) => "Unexpected error: "@,
            NgetError::Unknown => "Unknown error occurred."@,
        }
    }

    /// The text an error carries; empty for the variants that carry none.
    pub open spec fn detail(self) -> Seq<char> {
        match self {
            NgetError::InvalidUrl(m) => m@,
            NgetError::InvalidTcpUrl(m) => m@,
            NgetError::InvalidUri(m) => m@,
            NgetError::TcpConnectionError(m) => m@,
            NgetError::DnsResolutionError(m) => m@,
            NgetError::InvalidDomain(m) => m@,
            NgetError::TlsError(m) => m@,
            NgetError::ReqwestError(m) => m@,
            NgetError::ResolveAddressError(m) => m@,
            NgetError::H2Error(m) => m@,
            NgetError::UrlParseError(m) => m@,
            NgetError::InvalidDnsNameError(m) => m@,
            NgetError::ConnectionError(m) => m@,
            NgetError::ToStringError(m) => m@,
            NgetError::UnsupportedHTTPVersion(m) => m@,
            NgetError::HttpRequest(m) => m@,
            NgetError::InvalidStatusCode(m) => m@,
            NgetError::RedirectionLoop => Seq::<char>::empty(),
            NgetError::FileError(m) => m@,
            NgetError::FileChecksumMismatch(m) => m@,
            NgetError::FileLocked(m) => m@,
            NgetError::IoError(m) => m@,
            NgetError::ClientError(m) => m@,
            NgetError::ConfigurationError(m) => m@,
            NgetError::NetworkError(m) => m@,
            NgetError::DnsResolutionFailed(m) => m@,
            NgetError::ConnectionTimeout(m) => m@,
            NgetError::ReadTimeout(m) => m@,
            NgetError::TooManyRetries(m) => m@,
            NgetError::RateLimitExceeded => Seq::<char>::empty(),
            NgetError::Unexpected(m) => m@,
            NgetError::Unknown => Seq::<char>::empty(),
        }
    }

    /// What `describe` returns: the heading followed by the detail.
    pub open spec fn description(self) -> Seq<char> {
        self.heading() + self.detail()
    }

    /// The message shown to the user for this error.
    pub fn describe(&self) -> (text: String)
        ensures
            text@ == self.description(),
    {
        match self {
            NgetError::InvalidUrl(m) => headed("Invalid URL: ", m),
            NgetError::InvalidTcpUrl(m) => headed("Invalid TCP URL: ", m),
            NgetError::InvalidUri(m) => headed("Invalid URI: ", m),
            NgetError::TcpConnectionError(m) => headed("TCP Connection Error: ", m),
            NgetError::DnsResolutionError(m) => headed("DNS Resolution Error: ", m),
            NgetError::InvalidDomain(m) => headed("Invalid Domain: ", m),
            NgetError::TlsError(m) => headed("TLS Error: ", m),
            NgetError::ReqwestError(m) => headed("Reqwest Error: ", m),
            NgetError::ResolveAddressError(m) => headed("Unable to resolve address: ", m),
            NgetError::H2Error(m) => headed("H2 Error: ", m),
            NgetError::UrlParseError(m) => headed("URL Parse Error: ", m),
            NgetError::InvalidDnsNameError(m) => headed("Invalid DNS Name Error: ", m),
            NgetError::ConnectionError(m) => headed("Connection Error: ", m),
            NgetError::ToStringError(m) => headed("To String Error: ", m),
            NgetError::UnsupportedHTTPVersion(m) => headed("Unsupported HTTP Version: ", m),
            NgetError::HttpRequest(m) => headed("HTTP request failed: ", m),
            NgetError::InvalidStatusCode(m) => headed("Invalid HTTP status code: ", m),
            NgetError::RedirectionLoop => bare("HTTP redirection loop detected."),
            NgetError::FileError(m) => headed("Failed to save file: ", m),
            NgetError::FileChecksumMismatch(m) => headed(
                "Checksum validation failed for file: ",
                m,
            ),
            NgetError::FileLocked(m) => headed("File already exists and is locked: ", m),
            NgetError::IoError(m) => headed("IO Error: ", m),
            NgetError::ClientError(m) => headed("Unable to build HTTP Client: ", m),
            NgetError::ConfigurationError(m) => headed("Configuration error: ", m),
            NgetError::NetworkError(m) => headed("Network error: ", m),
            NgetError::DnsResolutionFailed(m) => headed("DNS resolution failed for URL: ", m),
            NgetError::ConnectionTimeout(m) => headed("Connection timeout for URL: ", m),
            NgetError::ReadTimeout(m) => headed("Read timeout for URL: ", m),
            NgetError::TooManyRetries(m) => headed("Too many retries for URL: ", m),
            NgetError::RateLimitExceeded => bare(
                "Rate limit exceeded. Please wait before retrying.",
            ),
            NgetError::Unexpected(m) => headed("Unexpected error: ", m),
            NgetError::Unknown => bare("Unknown error occurred."),
        }
    }
}

/// A heading followed by a detail, as one owned string.
pub fn headed(heading: &str, detail: &str) -> (text: String)
    ensures
        text@ == heading@ + detail@,
{
    let mut text = heading.to_owned();
    text.append(detail);
    text
}

/// A heading that stands alone, as an owned string.
fn bare(heading: &str) -> (text: String)
    ensures
        text@ == heading@ + Seq::<char>::empty(),
{
    assert(heading@ + Seq::<char>::empty() =~= heading@);
    heading.to_owned()
}

impl From<String> for NgetError {
    /// A bare message stands for an unexpected failure.
    fn from(message: String) -> (e: NgetError) {
        NgetError::Unexpected(message)
    }
}

impl vstd::std_specs::convert::FromSpecImpl<String> for NgetError {
    open spec fn obeys_from_spec() -> bool {
        true
    }

    open spec fn from_spec(message: String) -> NgetError {
        NgetError::Unexpected(message)
    }
}

} // verus!
