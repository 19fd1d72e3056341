use dormtk::config::{
    config_path, env_or, env_or_parse_u16, env_or_parse_u64, AppConfig, ConfigEnv, ConfigError,
    DatabaseConfig, RawConfig, ServerConfig,
};

fn empty_raw() -> RawConfig {
    RawConfig {
        app_host: None,
        app_port: None,
        db_host: None,
        db_port: None,
        db_name: None,
        db_user: None,
        db_password: None,
        jwt_secret: None,
        jwt_expiration_seconds: None,
    }
}

fn empty_env() -> ConfigEnv {
    ConfigEnv {
        app_host: None,
        app_port: None,
        db_host: None,
        db_port: None,
        db_name: None,
        db_user: None,
        db_password: None,
        jwt_secret: None,
        jwt_expiration_seconds: None,
    }
}

#[test]
fn defaults_apply_when_nothing_is_set() {
    let config = AppConfig::load(empty_raw(), empty_env()).expect("defaults load");
    assert_eq!(config.server.host, "0.0.0.0");
    assert_eq!(config.server.port, 8080);
    assert_eq!(config.database.host, "db");
    assert_eq!(config.database.port, 5432);
    assert_eq!(config.database.name, "dormtk");
    assert_eq!(config.database.user, "dormtk");
    assert_eq!(config.database.password, "dormtk");
    assert_eq!(config.jwt.secret, "dev-only-change-me");
    assert_eq!(config.jwt.expiration_seconds, 86_400);
}

#[test]
fn environment_wins_over_file_and_file_over_default() {
    let mut raw = empty_raw();
    raw.app_host = Some("127.0.0.1".to_owned());
    raw.app_port = Some(9000);
    raw.db_name = Some("from-file".to_owned());
    let mut env = empty_env();
    env.app_port = Some("9100".to_owned());
    env.db_name = Some("from-env".to_owned());
    env.jwt_expiration_seconds = Some("+60".to_owned());
    let config = AppConfig::load(raw, env).expect("config loads");
    assert_eq!(config.server.host, "127.0.0.1");
    assert_eq!(config.server.port, 9100);
    assert_eq!(config.database.name, "from-env");
    assert_eq!(config.jwt.expiration_seconds, 60);
}

fn parse_env_error(result: Result<AppConfig, ConfigError>) -> (String, String) {
    match result {
        Err(ConfigError::ParseEnv { name, value }) => (name, value),
        other => panic!("expected a ParseEnv error, got {:?}", other),
    }
}

#[test]
fn bad_numbers_are_reported_in_order() {
    let mut env = empty_env();
    env.app_port = Some("70000".to_owned());
    env.db_port = Some("x".to_owned());
    assert_eq!(
        parse_env_error(AppConfig::load(empty_raw(), env)),
        ("APP_PORT".to_owned(), "70000".to_owned())
    );

    let mut env = empty_env();
    env.db_port = Some("-1".to_owned());
    assert_eq!(
        parse_env_error(AppConfig::load(empty_raw(), env)),
        ("DB_PORT".to_owned(), "-1".to_owned())
    );

    let mut env = empty_env();
    env.jwt_expiration_seconds = Some("18446744073709551616".to_owned());
    assert_eq!(
        parse_env_error(AppConfig::load(empty_raw(), env)),
        ("JWT_EXPIRATION_SECONDS".to_owned(), "18446744073709551616".to_owned())
    );
}

#[test]
fn env_or_prefers_environment_then_file() {
    assert_eq!(env_or(Some("e".to_owned()), Some("f".to_owned()), "d"), "e");
    assert_eq!(env_or(None, Some("f".to_owned()), "d"), "f");
    assert_eq!(env_or(None, None, "d"), "d");
}

#[test]
fn env_or_parse_reads_unsigned_numbers() {
    assert_eq!(env_or_parse_u16("P", Some("65535".to_owned()), None, 1).unwrap(), 65535);
    assert!(env_or_parse_u16("P", Some("65536".to_owned()), None, 1).is_err());
    assert!(env_or_parse_u16("P", Some("".to_owned()), None, 1).is_err());
    assert!(env_or_parse_u16("P", Some("+".to_owned()), None, 1).is_err());
    assert!(env_or_parse_u16("P", Some(" 80".to_owned()), None, 1).is_err());
    assert_eq!(env_or_parse_u16("P", None, Some(7), 1).unwrap(), 7);
    assert_eq!(env_or_parse_u64("P", None, None, 86_400).unwrap(), 86_400);
    assert_eq!(
        env_or_parse_u64("P", Some("18446744073709551615".to_owned()), None, 0).unwrap(),
        u64::MAX
    );
}

#[test]
fn database_url_has_all_parts() {
    let db = DatabaseConfig {
        host: "db".to_owned(),
        port: 5432,
        name: "dormtk".to_owned(),
        user: "app".to_owned(),
        password: "secret".to_owned(),
    };
    assert_eq!(db.url(), "postgres://app:secret@db:5432/dormtk");
}

#[test]
fn server_address_text_joins_host_and_port() {
    let server = ServerConfig { host: "0.0.0.0".to_owned(), port: 8080 };
    assert_eq!(server.address_text(), "0.0.0.0:8080");
    let server = ServerConfig { host: "localhost".to_owned(), port: 0 };
    assert_eq!(server.address_text(), "localhost:0");
}

#[test]
fn config_path_prefers_environment_then_local_file() {
    assert_eq!(config_path(Some("/etc/dormtk.toml".to_owned()), true), "/etc/dormtk.toml");
    assert_eq!(config_path(None, true), "config/dev.toml");
    assert_eq!(config_path(None, false), "backend/config/dev.toml");
}

#[test]
fn config_errors_describe_themselves() {
    let e = ConfigError::ParseEnv { name: "APP_PORT".to_owned(), value: "x".to_owned() };
    assert_eq!(e.describe(), "failed to parse env APP_PORT=x");
    let e = ConfigError::Read { path: "a.toml".to_owned(), reason: "missing".to_owned() };
    assert_eq!(e.describe(), "failed to read config a.toml: missing");
    let e = ConfigError::ParseToml { path: "a.toml".to_owned(), reason: "bad".to_owned() };
    assert_eq!(e.describe(), "failed to parse config a.toml: bad");
    let e = ConfigError::InvalidSocketAddr { value: "h:1".to_owned(), reason: "r".to_owned() };
    assert_eq!(e.describe(), "invalid socket addr h:1: r");
}
