use zalo_core::config::{AppConfig, ConfigLayer, ConfigLoader, Environment, FileSource, LogFormat, LoggingConfig};
use zalo_core::error::ConfigError;

fn no_env() -> ConfigLayer {
    ConfigLayer { environment: None, filter: None, format: None }
}

#[test]
fn loads_default_configuration() {
    let loader = ConfigLoader::default();
    let config = loader
        .resolve(&FileSource::Unset, &no_env())
        .expect("default configuration should load");

    assert_eq!(config.environment(), Environment::Development);
    assert_eq!(config.logging().filter(), "info");
    assert_eq!(config.logging().format(), LogFormat::Text);
}

#[test]
fn merges_environment_variables() {
    let loader = ConfigLoader::default();
    let env = ConfigLayer {
        environment: Some("production".to_owned()),
        filter: Some("debug".to_owned()),
        format: Some("json".to_owned()),
    };
    let config = loader
        .resolve(&FileSource::Unset, &env)
        .expect("config should respect env overrides");

    assert_eq!(config.environment(), Environment::Production);
    assert_eq!(config.logging().filter(), "debug");
    assert_eq!(config.logging().format(), LogFormat::Json);
}

#[test]
fn fails_on_missing_file() {
    let loader = ConfigLoader::default().with_file_path("/definitely/missing.toml");
    let path = loader.file_path().expect("path was configured").to_owned();
    let error = loader
        .resolve(&FileSource::Missing { path }, &no_env())
        .expect_err("missing file should error");

    assert!(matches!(error, ConfigError::MissingFile { .. }));
}

#[test]
fn config_fails_on_missing_file() {
    let loader = ConfigLoader::new("APP_").with_file_path("/definitely/missing.toml");
    let error = loader
        .resolve(
            &FileSource::Missing { path: "/definitely/missing.toml".to_owned() },
            &no_env(),
        )
        .expect_err("missing file should error");

    match error {
        ConfigError::MissingFile { path } => assert_eq!(path, "/definitely/missing.toml"),
        other => panic!("unexpected error: {:?}", other),
    }
}

#[test]
fn loads_from_toml_file() {
    let content = r#"
                environment = "staging"

                [logging]
                filter = "warn"
                format = "text"
            "#;
    let config = ConfigLoader::default()
        .resolve(&FileSource::Loaded { text: content.to_owned() }, &no_env())
        .expect("file config should load");

    assert_eq!(config.environment(), Environment::Staging);
    assert_eq!(config.logging().filter(), "warn");
    assert_eq!(config.logging().format(), LogFormat::Text);
}

#[test]
fn env_config_path_missing_file_errors() {
    let loader = ConfigLoader::default();
    let effective = loader
        .effective_path(Some("/definitely/missing.toml"))
        .expect("override names a path");
    assert_eq!(effective, "/definitely/missing.toml");

    let error = loader
        .resolve(&FileSource::Missing { path: effective }, &no_env())
        .expect_err("missing env file should error");

    assert!(matches!(error, ConfigError::MissingFile { .. }));
}

#[test]
fn env_config_path_overrides_loader_setting() {
    let env_content = r#"
                environment = "staging"

                [logging]
                filter = "trace"
                format = "json"
            "#;
    let loader = ConfigLoader::default().with_file_path("/tmp/fallback.toml");

    let effective = loader
        .effective_path(Some("/tmp/env-config.toml"))
        .expect("override names a path");
    assert_eq!(effective, "/tmp/env-config.toml");

    let config = loader
        .resolve(&FileSource::Loaded { text: env_content.to_owned() }, &no_env())
        .expect("env config should load");

    assert_eq!(config.environment(), Environment::Staging);
    assert_eq!(config.logging().filter(), "trace");
    assert_eq!(config.logging().format(), LogFormat::Json);
}

#[test]
fn blank_config_path_override_is_ignored() {
    let loader = ConfigLoader::default().with_file_path("/tmp/fallback.toml");

    let unset = loader.effective_path(None);
    let blank = loader.effective_path(Some(""));
    let spaces = loader.effective_path(Some("   "));

    assert_eq!(unset.as_deref(), Some("/tmp/fallback.toml"));
    assert_eq!(blank.as_deref(), Some("/tmp/fallback.toml"));
    assert_eq!(spaces.as_deref(), Some("/tmp/fallback.toml"));

    let trimmed = loader.effective_path(Some("  /tmp/other.toml  "));
    assert_eq!(trimmed.as_deref(), Some("/tmp/other.toml"));
}

#[test]
fn filter_precedence_env_over_file_over_default() {
    let loader = ConfigLoader::default();
    let file = FileSource::Loaded {
        text: "[logging]\nfilter = \"warn\"\n".to_owned(),
    };
    let env = ConfigLayer {
        environment: None,
        filter: Some("debug".to_owned()),
        format: None,
    };

    let with_both = loader.resolve(&file, &env).expect("resolves");
    assert_eq!(with_both.logging().filter(), "debug");

    let file_only = loader.resolve(&file, &no_env()).expect("resolves");
    assert_eq!(file_only.logging().filter(), "warn");

    let defaults = loader.resolve(&FileSource::Unset, &no_env()).expect("resolves");
    assert_eq!(defaults.logging().filter(), "info");
}

#[test]
fn empty_file_is_valid() {
    let config = ConfigLoader::default()
        .resolve(&FileSource::Loaded { text: String::new() }, &no_env())
        .expect("an empty file is valid");

    assert_eq!(config.environment(), Environment::Development);
    assert_eq!(config.logging().filter(), "info");
    assert_eq!(config.logging().format(), LogFormat::Text);
}

#[test]
fn unknown_keys_and_sections_are_ignored() {
    let content = "# a comment\nname = whatever\n[server]\nport = 8080\n[logging]\nfilter = \"warn\"\n";
    let config = ConfigLoader::default()
        .resolve(&FileSource::Loaded { text: content.to_owned() }, &no_env())
        .expect("unknown keys are ignored");

    assert_eq!(config.logging().filter(), "warn");
}

#[test]
fn malformed_file_line_is_an_extraction_error() {
    let error = ConfigLoader::default()
        .resolve(
            &FileSource::Loaded { text: "environment = staging".to_owned() },
            &no_env(),
        )
        .expect_err("unquoted value for a known key is malformed");

    assert!(matches!(error, ConfigError::Extraction { .. }));
}

#[test]
fn unsupported_environment_value_is_an_extraction_error() {
    let env = ConfigLayer {
        environment: Some("galaxy".to_owned()),
        filter: None,
        format: None,
    };
    let error = ConfigLoader::default()
        .resolve(&FileSource::Unset, &env)
        .expect_err("unsupported environment value");

    match error {
        ConfigError::Extraction { detail } => {
            assert_eq!(detail, "unsupported environment value `galaxy`");
        },
        other => panic!("unexpected error: {:?}", other),
    }
}

#[test]
fn unsupported_format_value_is_an_extraction_error() {
    let env = ConfigLayer {
        environment: None,
        filter: None,
        format: Some("yaml".to_owned()),
    };
    let error = ConfigLoader::default()
        .resolve(&FileSource::Unset, &env)
        .expect_err("unsupported format value");

    match error {
        ConfigError::Extraction { detail } => {
            assert_eq!(detail, "unsupported logging format value `yaml`");
        },
        other => panic!("unexpected error: {:?}", other),
    }
}

#[test]
fn environment_names_round_trip() {
    assert_eq!(Environment::Production.as_str(), "production");
    assert_eq!(Environment::Staging.as_str(), "staging");
    assert_eq!(Environment::Development.as_str(), "development");
    assert_eq!(Environment::parse("staging"), Some(Environment::Staging));
    assert_eq!(Environment::parse("Staging"), None);
    assert_eq!(LogFormat::parse("json"), Some(LogFormat::Json));
    assert_eq!(LogFormat::parse("xml"), None);
}

#[test]
fn builders_and_getters_agree() {
    let logging = LoggingConfig::new("debug", LogFormat::Json);
    let config = AppConfig::default()
        .with_environment(Environment::Production)
        .with_logging(logging);

    assert_eq!(config.environment(), Environment::Production);
    assert_eq!(config.logging().filter(), "debug");
    assert_eq!(config.logging().format(), LogFormat::Json);
}

#[test]
fn loader_env_keys_carry_the_prefix() {
    let loader = ConfigLoader::default();
    assert_eq!(loader.config_path_key(), "ZALO_BOT_CONFIG_PATH");
    assert_eq!(loader.environment_key(), "ZALO_BOT_ENVIRONMENT");
    assert_eq!(loader.filter_key(), "ZALO_BOT_LOGGING__FILTER");
    assert_eq!(loader.format_key(), "ZALO_BOT_LOGGING__FORMAT");

    let custom = ConfigLoader::new("APP_");
    assert_eq!(custom.config_path_key(), "APP_CONFIG_PATH");
}

#[test]
fn later_assignment_wins_within_the_file() {
    let content = "[logging]\nfilter = \"warn\"\nfilter = \"error\"\n";
    let config = ConfigLoader::default()
        .resolve(&FileSource::Loaded { text: content.to_owned() }, &no_env())
        .expect("file resolves");

    assert_eq!(config.logging().filter(), "error");
}
