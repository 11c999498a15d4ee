use server_kit::config::{ConfigError, ConfigFormat, ServerConfig};
use server_kit::environment::Environment;
use std::time::Duration;

#[test]
fn config_environment_from_str() {
    assert_eq!("production".parse::<Environment>().unwrap(), Environment::Production);
    assert_eq!("Production".parse::<Environment>().unwrap(), Environment::Production);
    assert_eq!("PRODUCTION".parse::<Environment>().unwrap(), Environment::Production);
    assert_eq!("prod".parse::<Environment>().unwrap(), Environment::Production);
    assert_eq!("development".parse::<Environment>().unwrap(), Environment::Development);
    assert_eq!("dev".parse::<Environment>().unwrap(), Environment::Development);
    assert_eq!("anything".parse::<Environment>().unwrap(), Environment::Development);
}

#[test]
fn config_environment_is_methods() {
    assert!(Environment::Production.is_production());
    assert!(!Environment::Production.is_development());
    assert!(Environment::Development.is_development());
    assert!(!Environment::Development.is_production());
}

#[test]
fn config_server_config_defaults() {
    let config = ServerConfig::default();
    assert_eq!(config.host, "0.0.0.0");
    assert_eq!(config.port, 3000);
    assert_eq!(config.request_timeout_secs, 30);
    assert!(config.cors_origins.is_empty());
    assert!(config.environment.is_development());
}

#[test]
fn config_server_config_addr() {
    let config = ServerConfig {
        host: "127.0.0.1".to_string(),
        port: 8080,
        ..Default::default()
    };
    assert_eq!(config.addr(), "127.0.0.1:8080");
}

#[test]
fn config_server_config_request_timeout() {
    let config = ServerConfig {
        request_timeout_secs: 60,
        ..Default::default()
    };
    assert_eq!(config.request_timeout(), Duration::from_secs(60));
}

#[test]
fn config_format_from_path() {
    assert_eq!(ConfigFormat::from_path("config.toml"), Some(ConfigFormat::Toml));
    assert_eq!(ConfigFormat::from_path("config.yaml"), Some(ConfigFormat::Yaml));
    assert_eq!(ConfigFormat::from_path("config.yml"), Some(ConfigFormat::Yaml));
    assert_eq!(ConfigFormat::from_path("config.json"), Some(ConfigFormat::Json));
    assert_eq!(ConfigFormat::from_path("settings.env"), Some(ConfigFormat::DotEnv));
    assert_eq!(ConfigFormat::from_path("config.txt"), None);
    assert_eq!(ConfigFormat::from_path("noextension"), None);
    assert_eq!(ConfigFormat::from_path(".env"), None);
}

#[test]
fn config_config_builder_file_not_found() {
    let plan = ServerConfig::builder()
        .with_config_file("/nonexistent/path/config.toml")
        .plan();
    let path = plan.main_config_file.clone().unwrap();
    let result = plan.check_main_file(std::path::Path::new(&path).exists());

    assert!(result.is_err());
    let err = result.unwrap_err();
    assert!(matches!(err, ConfigError::NotFound(_)));
}

#[test]
fn config_config_error_display() {
    let err = ConfigError::NotFound("/test/path".to_string());
    assert!(err.message().contains("/test/path"));

    let err = ConfigError::Parse("invalid syntax".to_string());
    assert!(err.message().contains("invalid syntax"));
}

#[test]
fn config_format_case_and_directories() {
    assert_eq!(ConfigFormat::from_path("dir/CONFIG.TOML"), Some(ConfigFormat::Toml));
    assert_eq!(ConfigFormat::from_path("a.b/noext"), None);
    assert_eq!(ConfigFormat::from_path("/etc/app/settings.Json"), Some(ConfigFormat::Json));
    assert_eq!(ConfigFormat::from_path(".."), None);
}

#[test]
fn config_plan_orders_sources() {
    let plan = ServerConfig::builder()
        .with_dotenv()
        .with_config_file("a.toml")
        .with_config_file("local.env")
        .with_config_file(".env.test")
        .with_config_file("b.yaml")
        .with_config_file("notes.txt")
        .plan();
    assert!(plan.load_default_dotenv);
    assert!(!plan.init_logging);
    assert_eq!(plan.dotenv_files, vec!["local.env".to_string(), ".env.test".to_string()]);
    assert_eq!(plan.main_config_file, Some("b.yaml".to_string()));
    assert!(plan.check_main_file(true).is_ok());
}

#[test]
fn config_plan_without_main_file_is_ok() {
    let plan = ServerConfig::builder().with_logging_from_env().plan();
    assert!(plan.init_logging);
    assert_eq!(plan.main_config_file, None);
    assert!(plan.check_main_file(false).is_ok());
}

#[test]
fn config_addr_edge_ports() {
    let config = ServerConfig { host: "h".to_string(), port: 0, ..Default::default() };
    assert_eq!(config.addr(), "h:0");
    let config = ServerConfig { host: "h".to_string(), port: 65535, ..Default::default() };
    assert_eq!(config.addr(), "h:65535");
}
