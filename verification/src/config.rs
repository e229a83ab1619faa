//! The configuration record that the proxy works from. It is filled once at
//! start-up and only read afterwards.

use vstd::prelude::*;
use vstd::string::StringExecFns;
use crate::text::{decimal_text, port_text};

verus! {

/// Where the proxy itself listens.
#[derive(Debug, Clone)]
pub struct ServerConfig {
    pub host: String,
    pub port: u16,
}

/// The single upstream target.
#[derive(Debug, Clone)]
pub struct TargetConfig {
    pub host: String,
    pub port: u16,
    pub protocol: String,
}

/// The path prefix under which requests are accepted.
#[derive(Debug, Clone)]
pub struct ProxyConfig {
    pub path_prefix: String,
}

/// Settings of the outbound client.
#[derive(Debug, Clone)]
pub struct RequestConfig {
    /// Timeout of one outbound request, in seconds.
    pub timeout: u64,
    pub accept_invalid_certs: bool,
}

/// Settings of the log.
#[derive(Debug, Clone)]
pub struct LogConfig {
    pub level: String,
}

/// The whole configuration.
#[derive(Debug, Clone)]
pub struct AppConfig {
    pub server: ServerConfig,
    pub target: TargetConfig,
    pub proxy: ProxyConfig,
    pub request: RequestConfig,
    pub log: LogConfig,
    pub config_path: String,
}

/// The configuration file that is read when no other is named.
pub fn default_config_path() -> (path: String)
    ensures
        path@ == "config.toml"@,
{
    "config.toml".to_owned()
}

/// `{protocol}://{host}:{port}` followed by the path and query, taken
/// verbatim; an absent path and query adds nothing.
pub open spec fn backend_url(
    protocol: Seq<char>,
    host: Seq<char>,
    port: u16,
    path_and_query: Option<Seq<char>>,
) -> Seq<char> {
    protocol + "://"@ + host + ":"@ + decimal_text(port as nat) + match path_and_query {
        Some(p) => p,
        None => Seq::<char>::empty(),
    }
}

/// `{host}:{port}`.
pub open spec fn socket_address(host: Seq<char>, port: u16) -> Seq<char> {
    host + ":"@ + decimal_text(port as nat)
}

impl TargetConfig {
    /// The URL on the upstream target that an inbound path and query maps to.
    pub fn backend_url(&self, path_and_query: Option<&str>) -> (url: String)
        ensures
            url@ == backend_url(
                self.protocol@,
                self.host@,
                self.port,
                match path_and_query {
                    Some(p) => Some(p@),
                    None => None,
                },
            ),
    {
        let mut url = self.protocol.clone();
        url.append("://");
        url.append(self.host.as_str());
        url.append(":");
        let port = port_text(self.port);
        url.append(port.as_str());
        match path_and_query {
            Some(p) => {
                url.append(p);
            },
            None => {
                proof {
                    assert(url@ + Seq::<char>::empty() =~= url@);
                }
            },
        }
        url
    }
}

impl ServerConfig {
    /// The address that the listening socket is bound to.
    pub fn bind_address(&self) -> (addr: String)
        ensures
            addr@ == socket_address(self.host@, self.port),
    {
        let mut addr = self.host.clone();
        addr.append(":");
        let port = port_text(self.port);
        addr.append(port.as_str());
        addr
    }
}

} // verus!
