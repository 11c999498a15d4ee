use server_kit::grpc_config::{ChannelConfig, GrpcServerConfig};
use std::time::Duration;

#[test]
fn channel_config_defaults() {
    let config = ChannelConfig::default();
    assert_eq!(config.endpoint, "http://[::1]:50051");
    assert_eq!(config.timeout_secs, 30);
    assert_eq!(config.connect_timeout_secs, 10);
    assert!(config.tcp_nodelay);
}

#[test]
fn channel_config_timeouts() {
    let config = ChannelConfig {
        timeout_secs: 60,
        connect_timeout_secs: 15,
        ..Default::default()
    };
    assert_eq!(config.timeout(), Duration::from_secs(60));
    assert_eq!(config.connect_timeout(), Duration::from_secs(15));
}

#[test]
fn channel_config_keepalive() {
    let config = ChannelConfig::default();
    assert_eq!(config.tcp_keepalive(), Some(Duration::from_secs(60)));
    assert_eq!(config.http2_keepalive_interval(), Some(Duration::from_secs(30)));
    assert_eq!(config.http2_keepalive_timeout(), Some(Duration::from_secs(20)));
}

#[test]
fn channel_config_builder_with_endpoint() {
    let config: ChannelConfig = ChannelConfig::builder()
        .endpoint("http://localhost:9000")
        .timeout_secs(60)
        .build(ChannelConfig::default());

    assert_eq!(config.endpoint, "http://localhost:9000");
    assert_eq!(config.timeout_secs, 60);
}

#[test]
fn channel_config_builder_override_loaded() {
    let loaded = ChannelConfig {
        endpoint: "http://file.example.com:50051".to_string(),
        timeout_secs: 45,
        ..Default::default()
    };
    let config = ChannelConfig::builder()
        .endpoint("http://override.example.com:9000")
        .connect_timeout_secs(3)
        .build(loaded);
    assert_eq!(config.endpoint, "http://override.example.com:9000");
    assert_eq!(config.timeout_secs, 45);
    assert_eq!(config.connect_timeout_secs, 3);
}

#[test]
fn channel_config_tls_flags() {
    let mut config = ChannelConfig::default();
    assert!(!config.is_tls_enabled());
    assert!(!config.is_mtls_enabled());
    config.tls_ca_path = Some("ca.pem".to_string());
    config.tls_cert_path = Some("cert.pem".to_string());
    assert!(config.is_tls_enabled());
    assert!(!config.is_mtls_enabled());
    config.tls_key_path = Some("key.pem".to_string());
    assert!(config.is_mtls_enabled());
}

#[test]
fn grpc_server_config_defaults() {
    let config = GrpcServerConfig::default();
    assert_eq!(config.host, "[::1]");
    assert_eq!(config.port, 50051);
    assert_eq!(config.request_timeout_secs, 30);
    assert!(config.tcp_nodelay);
    assert_eq!(config.tcp_keepalive_secs, Some(60));
}

#[test]
fn grpc_server_config_addr() {
    let config = GrpcServerConfig {
        host: "127.0.0.1".to_string(),
        port: 9000,
        ..Default::default()
    };
    assert_eq!(config.addr(), "127.0.0.1:9000");
}

#[test]
fn grpc_server_config_request_timeout() {
    let config = GrpcServerConfig {
        request_timeout_secs: 60,
        ..Default::default()
    };
    assert_eq!(config.request_timeout(), Duration::from_secs(60));
}

#[test]
fn grpc_server_config_tcp_keepalive() {
    let config = GrpcServerConfig::default();
    assert_eq!(config.tcp_keepalive(), Some(Duration::from_secs(60)));

    let config = GrpcServerConfig {
        tcp_keepalive_secs: None,
        ..Default::default()
    };
    assert_eq!(config.tcp_keepalive(), None);
}

#[test]
fn grpc_server_config_tls_flag() {
    let mut config = GrpcServerConfig::default();
    assert!(!config.is_tls_enabled());
    config.tls_cert_path = Some("cert.pem".to_string());
    assert!(!config.is_tls_enabled());
    config.tls_key_path = Some("key.pem".to_string());
    assert!(config.is_tls_enabled());
}
