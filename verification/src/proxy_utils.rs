use vstd::prelude::*;

verus! {

/// Where a task's traffic goes: straight to the remote, or through a proxy.
///
/// An empty `proxy_url` means a direct connection.
#[derive(Debug, Clone)]
pub struct ProxyConfig {
    pub proxy_url: String,
    pub proxy_user: String,
    pub proxy_password: String,
}

impl ProxyConfig {
    /// Whether the configuration asks for a direct connection.
    pub open spec fn spec_is_direct(&self) -> bool {
        self.proxy_url@.len() == 0
    }

    /// Whether the configuration names a user or a password for the proxy.
    pub open spec fn spec_has_credentials(&self) -> bool {
        self.proxy_user@.len() > 0 || self.proxy_password@.len() > 0
    }

    /// The configuration of a direct connection: no proxy, no credentials.
    pub fn empty() -> (config: ProxyConfig)
        ensures
            config.proxy_url@.len() == 0,
            config.proxy_user@.len() == 0,
            config.proxy_password@.len() == 0,
            config.spec_is_direct(),
            !config.spec_has_credentials(),
    {
        ProxyConfig {
            proxy_url: String::new(),
            proxy_user: String::new(),
            proxy_password: String::new(),
        }
    }

    /// Whether the configuration asks for a direct connection.
    #[verifier::when_used_as_spec(spec_is_direct)]
    pub fn is_direct(&self) -> (direct: bool)
        ensures
            direct == self.spec_is_direct(),
    {
        self.proxy_url.as_str().is_empty()
    }

    /// Whether the configuration names a user or a password for the proxy.
    #[verifier::when_used_as_spec(spec_has_credentials)]
    pub fn has_credentials(&self) -> (named: bool)
        ensures
            named == self.spec_has_credentials(),
    {
        !self.proxy_password.as_str().is_empty() || !self.proxy_user.as_str().is_empty()
    }
}

impl Default for ProxyConfig {
    /// The configuration of a direct connection.
    fn default() -> (config: ProxyConfig)
        ensures
            config.proxy_url@.len() == 0,
            config.proxy_user@.len() == 0,
            config.proxy_password@.len() == 0,
    {
        ProxyConfig {
            proxy_url: String::new(),
            proxy_user: String::new(),
            proxy_password: String::new(),
        }
    }
}

} // verus!
