use server_kit::environment::{Environment, LogFormat};

#[test]
fn environment_from_str_production() {
    assert_eq!("production".parse::<Environment>().unwrap(), Environment::Production);
    assert_eq!("Production".parse::<Environment>().unwrap(), Environment::Production);
    assert_eq!("PRODUCTION".parse::<Environment>().unwrap(), Environment::Production);
    assert_eq!("prod".parse::<Environment>().unwrap(), Environment::Production);
}

#[test]
fn environment_from_str_development() {
    assert_eq!("development".parse::<Environment>().unwrap(), Environment::Development);
    assert_eq!("dev".parse::<Environment>().unwrap(), Environment::Development);
    assert_eq!("anything".parse::<Environment>().unwrap(), Environment::Development);
}

#[test]
fn environment_environment_is_methods() {
    assert!(Environment::Production.is_production());
    assert!(!Environment::Production.is_development());
    assert!(Environment::Development.is_development());
    assert!(!Environment::Development.is_production());
}

#[test]
fn environment_default() {
    assert_eq!(Environment::default(), Environment::Development);
}

#[test]
fn logging_log_format_from_str() {
    assert_eq!("json".parse::<LogFormat>().unwrap(), LogFormat::Json);
    assert_eq!("JSON".parse::<LogFormat>().unwrap(), LogFormat::Json);
    assert_eq!("Json".parse::<LogFormat>().unwrap(), LogFormat::Json);
    assert_eq!("text".parse::<LogFormat>().unwrap(), LogFormat::Text);
    assert_eq!("TEXT".parse::<LogFormat>().unwrap(), LogFormat::Text);
    assert_eq!("anything".parse::<LogFormat>().unwrap(), LogFormat::Text);
    assert_eq!("".parse::<LogFormat>().unwrap(), LogFormat::Text);
}

#[test]
fn logging_log_format_default() {
    assert_eq!(LogFormat::default(), LogFormat::Text);
}

#[test]
fn environment_empty_and_padded_names() {
    assert_eq!(Environment::parse(""), Environment::Development);
    assert_eq!(Environment::parse(" prod"), Environment::Development);
    assert_eq!(Environment::parse("PrOd"), Environment::Production);
}
