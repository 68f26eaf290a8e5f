use vstd::prelude::*;

verus! {

/// User name and password presented to an upstream proxy; two empty
/// strings mean that no authorization header is sent.
#[derive(Debug, Clone)]
pub struct AuthCredentials {
    pub username: String,
    pub password: String,
}

/// Authentication material of an upstream proxy.
#[derive(Debug, Clone)]
pub struct Auth {
    pub credentials: AuthCredentials,
    pub token: String,
}

/// A named group of host patterns; a request host that matches any of
/// them selects the proxy rule the group belongs to.
#[derive(Debug, Clone)]
pub struct Rules {
    pub name: String,
    pub hosts: Vec<String>,
}

/// One upstream proxy and the hosts routed through it.
#[derive(Debug, Clone)]
pub struct ProxyConfig {
    pub name: String,
    pub enabled: bool,
    pub scheme: String,
    pub host: String,
    pub port: u16,
    pub auth: Auth,
    pub rules: Vec<Rules>,
}

/// Package name and version, used for the `User-Agent` header.
#[derive(Debug, Clone)]
pub struct Package {
    pub name: String,
    pub version: String,
}

/// The package section of a manifest.
#[derive(Debug, Clone)]
pub struct CargoToml {
    pub package: Package,
}

/// Process-wide options, parsed once at start-up.
#[derive(Debug, Clone)]
pub struct Opt {
    pub port: Option<u16>,
    pub config: Option<String>,
    pub dpi: bool,
    pub token: Option<String>,
}

/// Port the proxy listens on when none is given.
pub const DEFAULT_PORT: u16 = 5555;

impl Opt {
    /// The listening port: the one given, or the default.
    pub fn listen_port(&self) -> (r: u16)
        ensures
            r == match self.port {
                Some(p) => p,
                None => DEFAULT_PORT,
            },
    {
        match self.port {
            Some(p) => p,
            None => DEFAULT_PORT,
        }
    }
}

} // verus!
