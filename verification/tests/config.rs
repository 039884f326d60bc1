use authgate::config::{
    get, CliArgs, Config, ConfigError, PostgresConfig, ServerConfig, SslConfig,
};

fn sample() -> Config {
    Config {
        db: PostgresConfig {
            max_connections: 8,
            postgres_url: "postgres://localhost/app".to_string(),
        },
        server: ServerConfig {
            host: "127.0.0.1".to_string(),
            port: 8443,
            root: "/api".to_string(),
        },
        ssl: SslConfig {
            key_file: "key.pem".to_string(),
            cert_file: "cert.pem".to_string(),
        },
    }
}

#[test]
fn get_returns_the_loaded_configuration() {
    assert_eq!(get(Some(sample())), Ok(sample()));
}

#[test]
fn get_without_loaded_configuration_is_an_error() {
    assert_eq!(get(None), Err(ConfigError::NotLoaded));
    assert_eq!(
        ConfigError::NotLoaded.message(),
        "no configuration loaded".to_string()
    );
}

#[test]
fn cli_args_default_to_the_settings_path() {
    let args = CliArgs::default();
    assert_eq!(args.config_path, "settings/config.yaml".to_string());
}
