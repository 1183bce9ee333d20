use secrecy::Secret;
use zero2prod::config::database::{self, SslMode};
use zero2prod::config::environment::Environment;
use zero2prod::config::{ConfigError, SecretText};

#[test]
fn tier_names_are_read_in_any_case() {
    assert_eq!(Environment::parse("local"), Ok(Environment::Local));
    assert_eq!(Environment::parse("Production"), Ok(Environment::Production));
    assert_eq!(Environment::parse("LOCAL"), Ok(Environment::Local));
    assert_eq!(Environment::parse("staging"), Err(ConfigError::UnknownEnvironment));
    assert_eq!(Environment::from_lowercase("Local"), Err(ConfigError::UnknownEnvironment));
}

#[test]
fn an_unnamed_tier_is_local() {
    assert_eq!(Environment::select(None), Ok(Environment::Local));
    assert_eq!(Environment::select(Some("production".to_string())), Ok(Environment::Production));
}

#[test]
fn each_tier_names_its_file() {
    assert_eq!(Environment::Local.file_name(), "local.yaml");
    assert_eq!(Environment::Production.file_name(), "production.yaml");
    assert_eq!(Environment::Production.as_str(), "production");
}

#[test]
fn ssl_follows_the_setting() {
    let mut db = database::Config {
        name: "newsletter".to_string(),
        host: "localhost".to_string(),
        port: 5432,
        username: "postgres".to_string(),
        password: SecretText(Secret::new("password".to_string())),
        require_ssl: true,
    };
    assert_eq!(db.ssl_mode(), SslMode::Require);
    db.require_ssl = false;
    assert_eq!(db.ssl_mode(), SslMode::Prefer);
}
