use vstd::prelude::*;

use crate::enums::HttpVersion;
use crate::error::NgetError;
use crate::proxy_utils::ProxyConfig;
use crate::text::same_text;
use crate::url_utils::{parse_url, url_parts, UrlParts};

verus! {

/// The HTTP client of the `reqwest` crate.
#[verifier::external_type_specification]
#[verifier::external_body]
pub struct ExClient(reqwest::Client);

/// The builder of `reqwest`'s client.
#[verifier::external_type_specification]
#[verifier::external_body]
pub struct ExClientBuilder(reqwest::ClientBuilder);

/// A proxy as `reqwest` holds it.
#[verifier::external_type_specification]
#[verifier::external_body]
pub struct ExProxy(reqwest::Proxy);

/// The error of the `reqwest` crate.
#[verifier::external_type_specification]
#[verifier::external_body]
pub struct ExReqwestError(reqwest::Error);

/// The most bytes a proxy's endpoint, user or password may hold where
/// credentials are attached: the URL that carries them is kept with 32-bit
/// offsets.
pub const MAX_PROXY_TEXT: usize = 0xFFFF;

/// How the client of a task is to be made.
#[derive(Debug, Clone, Copy, PartialEq, Eq, Structural)]
pub struct ClientPlan {
    /// Whether all traffic goes through the configured proxy.
    pub proxied: bool,
    /// Whether basic authentication is attached to the proxy.
    pub authenticated: bool,
    /// Whether the client speaks HTTP/2 from the first byte.
    pub http2_prior_knowledge: bool,
}

/// The plan for a configuration and a version: a proxy where a URL is
/// given for one, credentials where a proxy is used and a user or a
/// password is named, and forced HTTP/2 for `Http2` alone.
pub open spec fn planned(proxy_config: &ProxyConfig, http_version: HttpVersion) -> ClientPlan {
    ClientPlan {
        proxied: !proxy_config.spec_is_direct(),
        authenticated: !proxy_config.spec_is_direct() && proxy_config.spec_has_credentials(),
        http2_prior_knowledge: http_version.spec_forces_http2(),
    }
}

/// Decides how the client of a task is to be made.
pub fn plan_client(proxy_config: &ProxyConfig, http_version: &HttpVersion) -> (plan: ClientPlan)
    ensures
        plan == planned(proxy_config, *http_version),
{
    let proxied = !proxy_config.is_direct();
    ClientPlan {
        proxied,
        authenticated: proxied && proxy_config.has_credentials(),
        http2_prior_knowledge: http_version.forces_http2(),
    }
}

/// Whether `reqwest` takes a text as the endpoint of a proxy.
pub uninterp spec fn proxy_endpoint_accepted(endpoint: Seq<char>) -> bool;

/// Whether a user and a password can be written into a URL with these
/// parts: it has no host of its own, or its host is not empty and its
/// scheme is not `file`.
pub open spec fn takes_userinfo(parts: Option<UrlParts>) -> bool {
    match parts {
        Some(p) => match p.host {
            Some(h) => h.len() > 0 && p.scheme != "file"@,
            None => true,
        },
        None => true,
    }
}

/// The number of bytes that a text takes in UTF-8.
pub open spec fn byte_len(text: Seq<char>) -> nat {
    vstd::utf8::encode_utf8(text).len()
}

/// Whether credentials can be attached to a proxy at `endpoint`.
pub open spec fn credentials_fit(endpoint: Seq<char>, user: Seq<char>, password: Seq<char>) -> bool {
    &&& byte_len(endpoint) <= MAX_PROXY_TEXT
    &&& byte_len(user) <= MAX_PROXY_TEXT
    &&& byte_len(password) <= MAX_PROXY_TEXT
    &&& takes_userinfo(url_parts(endpoint))
}

/// Calls `reqwest::Client::builder`. Trusted; nothing is claimed of the
/// builder.
#[verifier::external_body]
fn new_builder() -> (builder: reqwest::ClientBuilder) {
    reqwest::Client::builder()
}

/// Calls `reqwest::ClientBuilder::proxy`. Trusted; nothing is claimed of the
/// builder.
#[verifier::external_body]
fn with_proxy(builder: reqwest::ClientBuilder, proxy: reqwest::Proxy) -> (with: reqwest::ClientBuilder) {
    builder.proxy(proxy)
}

/// Calls `reqwest::ClientBuilder::http2_prior_knowledge`. Trusted; nothing
/// is claimed of the builder.
#[verifier::external_body]
fn with_http2_prior_knowledge(builder: reqwest::ClientBuilder) -> (with: reqwest::ClientBuilder) {
    builder.http2_prior_knowledge()
}

/// Calls `reqwest::ClientBuilder::build`. Trusted; nothing is claimed of
/// the outcome, which depends on the machine's TLS and resolver set-up.
#[verifier::external_body]
fn build_client(builder: reqwest::ClientBuilder) -> (built: Result<reqwest::Client, reqwest::Error>) {
    builder.build()
}

/// Calls `reqwest::Proxy::all`. Trusted: it succeeds on the texts that
/// `proxy_endpoint_accepted` names, and on no others.
#[verifier::external_body]
fn proxy_all(endpoint: &str) -> (made: Result<reqwest::Proxy, reqwest::Error>)
    ensures
        made is Ok <==> proxy_endpoint_accepted(endpoint@),
{
    reqwest::Proxy::all(endpoint)
}

/// Calls `reqwest::Proxy::all` and, on the proxy it gives,
/// `reqwest::Proxy::basic_auth`. Trusted: it succeeds where `Proxy::all`
/// does. `basic_auth` writes the user and the password into the proxy's
/// URL and panics where that URL cannot take them; the URL is the one that
/// `url::Url::parse` reads from `endpoint`, or, where that has no host, one
/// with the scheme `http`, so `requires` keeps those endpoints out, and
/// texts too long for the URL's 32-bit offsets with them.
#[verifier::external_body]
fn proxy_all_basic_auth(endpoint: &str, user: &str, password: &str) -> (made: Result<
    reqwest::Proxy,
    reqwest::Error,
>)
    requires
        credentials_fit(endpoint@, user@, password@),
    ensures
        made is Ok <==> proxy_endpoint_accepted(endpoint@),
{
    Ok(reqwest::Proxy::all(endpoint)?.basic_auth(user, password))
}

/// The message of a `reqwest::Error`, as its `Display` writes it. Trusted;
/// nothing is claimed of the text.
#[verifier::external_body]
fn reqwest_error_text(e: &reqwest::Error) -> (text: String) {
    e.to_string()
}

/// Whether credentials can be attached to a proxy at `endpoint`.
pub fn check_credentials_fit(endpoint: &str, user: &str, password: &str) -> (fit: bool)
    ensures
        fit == credentials_fit(endpoint@, user@, password@),
{
    if endpoint.as_bytes().len() > MAX_PROXY_TEXT || user.as_bytes().len() > MAX_PROXY_TEXT
        || password.as_bytes().len() > MAX_PROXY_TEXT {
        return false;
    }
    match parse_url(endpoint) {
        Ok(url) => match &url.host {
            Some(host) => !host.as_str().is_empty() && !same_text(url.scheme.as_str(), "file"),
            None => true,
        },
        Err(_) => true,
    }
}

/// Turns the outcome of a construction into the library's own: the value
/// as it is, or `ClientError` with the text of the failure.
pub fn made_or_client_error<T>(made: Result<T, reqwest::Error>) -> (r: Result<T, NgetError>)
    ensures
        match made {
            Ok(value) => r == Ok::<T, NgetError>(value),
            Err(_) => r matches Err(e) && e is ClientError,
        },
{
    match made {
        Ok(value) => Ok(value),
        Err(e) => Err(NgetError::ClientError(reqwest_error_text(&e))),
    }
}

/// Builds the HTTP client of a task.
///
/// Without a proxy URL the client connects directly; with one, all traffic
/// goes through that proxy, with basic authentication where a user or a
/// password is named. For `Http2` the client speaks HTTP/2 from the first
/// byte; for `Http3` it is built as for `Http11`. Nothing is sent.
///
/// Every failure is a `ClientError`. The construction fails where the
/// proxy's endpoint is not accepted, and where credentials are named for an
/// endpoint that cannot carry them; it may also fail where the transport
/// cannot be set up.
pub fn get_client(proxy_config: &ProxyConfig, http_version: &HttpVersion) -> (r: Result<
    reqwest::Client,
    NgetError,
>)
    ensures
        r matches Err(e) ==> e is ClientError,
        !proxy_config.spec_is_direct() && !proxy_endpoint_accepted(proxy_config.proxy_url@)
            ==> r is Err,
        !proxy_config.spec_is_direct() && proxy_config.spec_has_credentials() && !credentials_fit(
            proxy_config.proxy_url@,
            proxy_config.proxy_user@,
            proxy_config.proxy_password@,
        ) ==> r is Err,
{
    let plan = plan_client(proxy_config, http_version);
    let mut builder = new_builder();
    if plan.proxied {
        let endpoint = proxy_config.proxy_url.as_str();
        let made = if plan.authenticated {
            let user = proxy_config.proxy_user.as_str();
            let password = proxy_config.proxy_password.as_str();
            if !check_credentials_fit(endpoint, user, password) {
                return Err(
                    NgetError::ClientError(
                        "the proxy endpoint cannot carry credentials".to_owned(),
                    ),
                );
            }
            proxy_all_basic_auth(endpoint, user, password)
        } else {
            proxy_all(endpoint)
        };
        match made_or_client_error(made) {
            Ok(proxy) => {
                builder = with_proxy(builder, proxy);
            },
            Err(e) => {
                return Err(e);
            },
        }
    }
    if plan.http2_prior_knowledge {
        builder = with_http2_prior_knowledge(builder);
    }
    made_or_client_error(build_client(builder))
}

} // verus!
