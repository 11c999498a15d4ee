//! Configuration of RPC client channels and RPC servers.

use vstd::prelude::*;
use crate::config::{
    duration_from_secs, duration_of_secs, format_addr, host_port, optional_secs, ConfigBuilder,
};
use crate::environment::Environment;

verus! {

/// Configuration of a client channel.
#[derive(Clone, Debug)]
pub struct ChannelConfig {
    /// Service endpoint URL.
    pub endpoint: String,
    pub connect_timeout_secs: u64,
    pub timeout_secs: u64,
    pub tcp_keepalive_secs: Option<u64>,
    pub tcp_nodelay: bool,
    pub http2_keepalive_interval_secs: Option<u64>,
    pub http2_keepalive_timeout_secs: Option<u64>,
    /// CA certificate for verifying the server (PEM).
    pub tls_ca_path: Option<String>,
    /// Client certificate for mutual TLS (PEM).
    pub tls_cert_path: Option<String>,
    /// Client private key for mutual TLS (PEM).
    pub tls_key_path: Option<String>,
    /// Domain name to verify instead of the endpoint's host.
    pub tls_domain: Option<String>,
}

impl Default for ChannelConfig {
    fn default() -> (r: ChannelConfig)
        ensures
            r.endpoint@ == "http://[::1]:50051"@,
            r.connect_timeout_secs == 10,
            r.timeout_secs == 30,
            r.tcp_keepalive_secs == Some(60u64),
            r.tcp_nodelay,
            r.http2_keepalive_interval_secs == Some(30u64),
            r.http2_keepalive_timeout_secs == Some(20u64),
            r.tls_ca_path is None,
            r.tls_cert_path is None,
            r.tls_key_path is None,
            r.tls_domain is None,
    {
        ChannelConfig {
            endpoint: "http://[::1]:50051".to_owned(),
            connect_timeout_secs: 10,
            timeout_secs: 30,
            tcp_keepalive_secs: Some(60),
            tcp_nodelay: true,
            http2_keepalive_interval_secs: Some(30),
            http2_keepalive_timeout_secs: Some(20),
            tls_ca_path: None,
            tls_cert_path: None,
            tls_key_path: None,
            tls_domain: None,
        }
    }
}

impl ChannelConfig {
    pub fn builder() -> (r: ChannelConfigBuilder)
        ensures
            r.is_empty(),
    {
        ChannelConfigBuilder::new()
    }

    pub fn connect_timeout(&self) -> (r: std::time::Duration)
        ensures
            r == duration_of_secs(self.connect_timeout_secs),
    {
        duration_from_secs(self.connect_timeout_secs)
    }

    pub fn timeout(&self) -> (r: std::time::Duration)
        ensures
            r == duration_of_secs(self.timeout_secs),
    {
        duration_from_secs(self.timeout_secs)
    }

    pub fn tcp_keepalive(&self) -> (r: Option<std::time::Duration>)
        ensures
            self.tcp_keepalive_secs is None ==> r is None,
            self.tcp_keepalive_secs is Some ==> r == Some(duration_of_secs(self.tcp_keepalive_secs->Some_0)),
    {
        optional_secs(self.tcp_keepalive_secs)
    }

    pub fn http2_keepalive_interval(&self) -> (r: Option<std::time::Duration>)
        ensures
            self.http2_keepalive_interval_secs is None ==> r is None,
            self.http2_keepalive_interval_secs is Some ==> r == Some(
                duration_of_secs(self.http2_keepalive_interval_secs->Some_0),
            ),
    {
        optional_secs(self.http2_keepalive_interval_secs)
    }

    pub fn http2_keepalive_timeout(&self) -> (r: Option<std::time::Duration>)
        ensures
            self.http2_keepalive_timeout_secs is None ==> r is None,
            self.http2_keepalive_timeout_secs is Some ==> r == Some(
                duration_of_secs(self.http2_keepalive_timeout_secs->Some_0),
            ),
    {
        optional_secs(self.http2_keepalive_timeout_secs)
    }

    /// TLS is on when a CA certificate is configured.
    pub fn is_tls_enabled(&self) -> (r: bool)
        ensures
            r == self.tls_ca_path is Some,
    {
        self.tls_ca_path.is_some()
    }

    /// Mutual TLS is on when both a client certificate and key are configured.
    pub fn is_mtls_enabled(&self) -> (r: bool)
        ensures
            r == (self.tls_cert_path is Some && self.tls_key_path is Some),
    {
        self.tls_cert_path.is_some() && self.tls_key_path.is_some()
    }
}

/// Builds a [`ChannelConfig`]: loaded sources, then explicit overrides.
#[derive(Clone, Debug)]
pub struct ChannelConfigBuilder {
    pub inner: ConfigBuilder,
    pub endpoint: Option<String>,
    pub timeout_secs: Option<u64>,
    pub connect_timeout_secs: Option<u64>,
}

impl ChannelConfigBuilder {
    /// No sources and no overrides.
    pub open spec fn is_empty(self) -> bool {
        &&& self.inner.is_empty()
        &&& self.endpoint is None
        &&& self.timeout_secs is None
        &&& self.connect_timeout_secs is None
    }

    pub fn new() -> (r: ChannelConfigBuilder)
        ensures
            r.is_empty(),
    {
        ChannelConfigBuilder {
            inner: ConfigBuilder::new(),
            endpoint: None,
            timeout_secs: None,
            connect_timeout_secs: None,
        }
    }

    pub fn with_dotenv(self) -> (r: ChannelConfigBuilder)
        ensures
            r.inner.load_default_dotenv,
            r.inner.config_files == self.inner.config_files,
            r.endpoint == self.endpoint,
            r.timeout_secs == self.timeout_secs,
            r.connect_timeout_secs == self.connect_timeout_secs,
    {
        ChannelConfigBuilder { inner: self.inner.with_dotenv(), ..self }
    }

    pub fn with_config_file(self, path: &str) -> (r: ChannelConfigBuilder)
        ensures
            r.inner.config_files.deep_view() == self.inner.config_files.deep_view().push(path@),
            r.endpoint == self.endpoint,
            r.timeout_secs == self.timeout_secs,
            r.connect_timeout_secs == self.connect_timeout_secs,
    {
        ChannelConfigBuilder { inner: self.inner.with_config_file(path), ..self }
    }

    pub fn endpoint(self, endpoint: &str) -> (r: ChannelConfigBuilder)
        ensures
            r.endpoint is Some && r.endpoint->Some_0@ == endpoint@,
            r.timeout_secs == self.timeout_secs,
            r.connect_timeout_secs == self.connect_timeout_secs,
    {
        ChannelConfigBuilder { endpoint: Some(endpoint.to_owned()), ..self }
    }

    pub fn timeout_secs(self, secs: u64) -> (r: ChannelConfigBuilder)
        ensures
            r.endpoint == self.endpoint,
            r.timeout_secs == Some(secs),
            r.connect_timeout_secs == self.connect_timeout_secs,
    {
        ChannelConfigBuilder { timeout_secs: Some(secs), ..self }
    }

    pub fn connect_timeout_secs(self, secs: u64) -> (r: ChannelConfigBuilder)
        ensures
            r.endpoint == self.endpoint,
            r.timeout_secs == self.timeout_secs,
            r.connect_timeout_secs == Some(secs),
    {
        ChannelConfigBuilder { connect_timeout_secs: Some(secs), ..self }
    }

    /// The configuration: what was loaded, with each override set here
    /// taking precedence over it.
    pub fn build(self, loaded: ChannelConfig) -> (r: ChannelConfig)
        ensures
            self.endpoint is Some ==> r.endpoint == self.endpoint->Some_0,
            self.endpoint is None ==> r.endpoint == loaded.endpoint,
            r.timeout_secs == (match self.timeout_secs {
                Some(t) => t,
                None => loaded.timeout_secs,
            }),
            r.connect_timeout_secs == (match self.connect_timeout_secs {
                Some(t) => t,
                None => loaded.connect_timeout_secs,
            }),
            r.tcp_keepalive_secs == loaded.tcp_keepalive_secs,
            r.tcp_nodelay == loaded.tcp_nodelay,
            r.http2_keepalive_interval_secs == loaded.http2_keepalive_interval_secs,
            r.http2_keepalive_timeout_secs == loaded.http2_keepalive_timeout_secs,
            r.tls_ca_path == loaded.tls_ca_path,
            r.tls_cert_path == loaded.tls_cert_path,
            r.tls_key_path == loaded.tls_key_path,
            r.tls_domain == loaded.tls_domain,
    {
        let mut config = loaded;
        if let Some(e) = self.endpoint {
            config.endpoint = e;
        }
        if let Some(t) = self.timeout_secs {
            config.timeout_secs = t;
        }
        if let Some(t) = self.connect_timeout_secs {
            config.connect_timeout_secs = t;
        }
        config
    }
}

/// Configuration of an RPC server.
#[derive(Clone, Debug)]
pub struct GrpcServerConfig {
    pub environment: Environment,
    pub host: String,
    pub port: u16,
    pub request_timeout_secs: u64,
    /// Most concurrent streams per connection.
    pub max_concurrent_streams: Option<u32>,
    pub tcp_keepalive_secs: Option<u64>,
    pub tcp_nodelay: bool,
    /// Server certificate (PEM).
    pub tls_cert_path: Option<String>,
    /// Server private key (PEM).
    pub tls_key_path: Option<String>,
    /// CA certificate for authenticating clients (PEM).
    pub tls_ca_path: Option<String>,
}

impl Default for GrpcServerConfig {
    fn default() -> (r: GrpcServerConfig)
        ensures
            r.environment == Environment::Development,
            r.host@ == "[::1]"@,
            r.port == 50051,
            r.request_timeout_secs == 30,
            r.max_concurrent_streams is None,
            r.tcp_keepalive_secs == Some(60u64),
            r.tcp_nodelay,
            r.tls_cert_path is None,
            r.tls_key_path is None,
            r.tls_ca_path is None,
    {
        GrpcServerConfig {
            environment: Environment::Development,
            host: "[::1]".to_owned(),
            port: 50051,
            request_timeout_secs: 30,
            max_concurrent_streams: None,
            tcp_keepalive_secs: Some(60),
            tcp_nodelay: true,
            tls_cert_path: None,
            tls_key_path: None,
            tls_ca_path: None,
        }
    }
}

impl GrpcServerConfig {
    pub fn builder() -> (r: ConfigBuilder)
        ensures
            r.is_empty(),
    {
        ConfigBuilder::new()
    }

    /// The address to bind: `host:port`.
    pub fn addr(&self) -> (r: String)
        ensures
            r@ == host_port(self.host@, self.port),
    {
        format_addr(self.host.as_str(), self.port)
    }

    pub fn request_timeout(&self) -> (r: std::time::Duration)
        ensures
            r == duration_of_secs(self.request_timeout_secs),
    {
        duration_from_secs(self.request_timeout_secs)
    }

    pub fn tcp_keepalive(&self) -> (r: Option<std::time::Duration>)
        ensures
            self.tcp_keepalive_secs is None ==> r is None,
            self.tcp_keepalive_secs is Some ==> r == Some(duration_of_secs(self.tcp_keepalive_secs->Some_0)),
    {
        optional_secs(self.tcp_keepalive_secs)
    }

    /// TLS is on when both a certificate and a key are configured.
    pub fn is_tls_enabled(&self) -> (r: bool)
        ensures
            r == (self.tls_cert_path is Some && self.tls_key_path is Some),
    {
        self.tls_cert_path.is_some() && self.tls_key_path.is_some()
    }
}

} // verus!
