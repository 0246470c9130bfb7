use plazer_service::config::{
    config_level_value, config_parsed_value, config_str_value, env_value, ConfigError,
    EnvValue, Environment, KeyRead, KeySource, KeyStep, LogConfig, LogLevel, PrivateKeyCreate,
    ServiceConfig, ServiceConfigBuilder, DEFAULT_ADDRESS, DEFAULT_DATABASE, DEFAULT_HOST,
    DEFAULT_LOG_DIR, DEFAULT_LOG_LEVEL_FILE, DEFAULT_LOG_LEVEL_STDOUT, DEFAULT_NAMESPACE,
    DEFAULT_PORT, DEFAULT_PRIVATE_KEY_PATH, ENV_VAR_ADDRESS, ENV_VAR_LOG_LEVEL_FILE,
    ENV_VAR_PORT,
};

fn present(value: &str) -> EnvValue {
    EnvValue::Present(value.to_string())
}

fn empty_env() -> Environment {
    Environment {
        address: EnvValue::Absent,
        namespace: EnvValue::Absent,
        database: EnvValue::Absent,
        private_key: EnvValue::Absent,
        private_key_path: EnvValue::Absent,
        log_dir: EnvValue::Absent,
        log_level_stdout: EnvValue::Absent,
        log_level_file: EnvValue::Absent,
        host: EnvValue::Absent,
        port: EnvValue::Absent,
    }
}

fn defaults() -> ServiceConfig {
    ServiceConfig {
        address: DEFAULT_ADDRESS.to_string(),
        namespace: DEFAULT_NAMESPACE.to_string(),
        database: DEFAULT_DATABASE.to_string(),
        private_key: None,
        private_key_path: DEFAULT_PRIVATE_KEY_PATH.to_string(),
        private_key_create: None,
        log_dir: DEFAULT_LOG_DIR.to_string(),
        log_level_stdout: DEFAULT_LOG_LEVEL_STDOUT,
        log_level_file: DEFAULT_LOG_LEVEL_FILE,
        host: DEFAULT_HOST.to_string(),
        port: DEFAULT_PORT,
    }
}

#[test]
fn test_config_defaults() {
    assert_eq!(DEFAULT_ADDRESS, "file:./data/db");
    assert_eq!(DEFAULT_PORT, 8080);
    assert_eq!(ENV_VAR_ADDRESS, "PLAZER_DB_ADDRESS");
    let built = ServiceConfigBuilder::new().build(empty_env(), ServiceConfigBuilder::default());
    assert_eq!(built, Ok(defaults()));
}

#[test]
fn test_config_builder_starts_unset() {
    let builder = ServiceConfigBuilder::new();
    assert_eq!(builder, ServiceConfigBuilder::default());
    assert_eq!(builder.address, None);
    assert_eq!(builder.port, None);
    assert_eq!(builder.private_key_create, None);
}

#[test]
fn test_config_builder_sets_each_setting() {
    let builder = ServiceConfigBuilder::new()
        .address("mem://")
        .namespace("ns")
        .database("db")
        .private_key("key")
        .private_key_path("./key.pem")
        .private_key_create(PrivateKeyCreate)
        .log_dir("./logs")
        .log_level_stdout(LogLevel::Warn)
        .log_level_file(LogLevel::Trace)
        .host("localhost")
        .port(81);
    assert_eq!(
        builder,
        ServiceConfigBuilder {
            address: Some("mem://".to_string()),
            namespace: Some("ns".to_string()),
            database: Some("db".to_string()),
            private_key: Some("key".to_string()),
            private_key_path: Some("./key.pem".to_string()),
            private_key_create: Some(PrivateKeyCreate),
            log_dir: Some("./logs".to_string()),
            log_level_stdout: Some(LogLevel::Warn),
            log_level_file: Some(LogLevel::Trace),
            host: Some("localhost".to_string()),
            port: Some(81),
        }
    );
    let cleared = builder
        .clone()
        .set_address(None)
        .set_namespace(None)
        .set_database(None)
        .set_private_key(None)
        .set_private_key_path(None)
        .set_private_key_create(None)
        .set_log_dir(None)
        .set_log_level_stdout(None)
        .set_log_level_file(None)
        .set_host(None)
        .set_port(None);
    assert_eq!(cleared, ServiceConfigBuilder::new());
    let changed = builder.clone().set_port(Some(82)).set_host(Some("h".to_string()));
    assert_eq!(changed.port, Some(82));
    assert_eq!(changed.host, Some("h".to_string()));
    assert_eq!(changed.address, builder.address);
}

#[test]
fn test_config_precedence() {
    let file = ServiceConfigBuilder::new().address("from file").host("file host").port(1);
    let mut env = empty_env();
    env.address = present("from env");
    env.port = present("2");
    // The argument wins over all.
    let built = ServiceConfigBuilder::new().address("from arg").port(3).build(env.clone(), file.clone());
    let built = built.unwrap();
    assert_eq!(built.address, "from arg");
    assert_eq!(built.port, 3);
    // Then the environment, then the file, then the default.
    let built = ServiceConfigBuilder::new().build(env, file.clone()).unwrap();
    assert_eq!(built.address, "from env");
    assert_eq!(built.port, 2);
    assert_eq!(built.host, "file host");
    assert_eq!(built.namespace, DEFAULT_NAMESPACE);
    let built = ServiceConfigBuilder::new().build(empty_env(), file).unwrap();
    assert_eq!(built.address, "from file");
    assert_eq!(built.port, 1);
}

#[test]
fn test_config_private_key_has_no_default() {
    let mut env = empty_env();
    let file = ServiceConfigBuilder::new().private_key("file key");
    let built = ServiceConfigBuilder::new().build(env.clone(), file.clone()).unwrap();
    assert_eq!(built.private_key, Some("file key".to_string()));
    env.private_key = present("env key");
    let built = ServiceConfigBuilder::new().build(env.clone(), file.clone()).unwrap();
    assert_eq!(built.private_key, Some("env key".to_string()));
    let built = ServiceConfigBuilder::new().private_key("arg key").build(env, file).unwrap();
    assert_eq!(built.private_key, Some("arg key".to_string()));
    let built = ServiceConfigBuilder::new().build(empty_env(), ServiceConfigBuilder::new());
    assert_eq!(built.unwrap().private_key, None);
}

#[test]
fn test_config_first_fault_is_reported() {
    let mut env = empty_env();
    env.log_level_file = present("loud");
    env.port = present("eighty");
    let built = ServiceConfigBuilder::new().build(env.clone(), ServiceConfigBuilder::new());
    assert_eq!(
        built,
        Err(ConfigError::LogLevelInvalid {
            var: ENV_VAR_LOG_LEVEL_FILE.to_string(),
            value: "loud".to_string()
        })
    );
    env.address = EnvValue::NotUnicode;
    let built = ServiceConfigBuilder::new().build(env.clone(), ServiceConfigBuilder::new());
    assert_eq!(built, Err(ConfigError::EnvNotUnicode { var: ENV_VAR_ADDRESS.to_string() }));
    // A setting given as an argument does not look at the environment.
    let built = ServiceConfigBuilder::new()
        .address("a")
        .log_level_file(LogLevel::Info)
        .build(env, ServiceConfigBuilder::new());
    assert_eq!(
        built,
        Err(ConfigError::EnvInvalid { var: ENV_VAR_PORT.to_string(), value: "eighty".to_string() })
    );
}

#[test]
fn test_config_str_value_sources() {
    let file = Some("file".to_string());
    assert_eq!(
        config_str_value(Some("arg".to_string()), "VAR", EnvValue::NotUnicode, file.clone(), "def"),
        Ok("arg".to_string())
    );
    assert_eq!(
        config_str_value(None, "VAR", present("env"), file.clone(), "def"),
        Ok("env".to_string())
    );
    assert_eq!(config_str_value(None, "VAR", EnvValue::Absent, file, "def"), Ok("file".to_string()));
    assert_eq!(config_str_value(None, "VAR", EnvValue::Absent, None, "def"), Ok("def".to_string()));
    assert_eq!(
        config_str_value(None, "VAR", EnvValue::NotUnicode, None, "def"),
        Err(ConfigError::EnvNotUnicode { var: "VAR".to_string() })
    );
}

#[test]
fn test_config_parsed_value_reads_a_port() {
    for (text, port) in [("0", 0_u16), ("8080", 8080), ("65535", 65535), ("+443", 443), ("007", 7)] {
        assert_eq!(config_parsed_value(None, "P", present(text), Some(1), 2), Ok(port));
    }
    for text in ["", "+", "-1", "65536", "80 ", " 80", "8o", "0x50", "1e3", "99999999999999999999"] {
        assert_eq!(
            config_parsed_value(None, "P", present(text), Some(1), 2),
            Err(ConfigError::EnvInvalid { var: "P".to_string(), value: text.to_string() })
        );
    }
    for text in [
        "0", "7", "+7", "++7", "+-7", "-0", "+0", "65535", "65536", "065535", "655350", "+",
        "", "１２", "é80", "80é", "0000000000000000000000000000080", "4294967297", "6553\u{0661}",
    ] {
        assert_eq!(
            config_parsed_value(None, "P", present(text), Some(1), 2).ok(),
            text.parse::<u16>().ok(),
            "{text:?}"
        );
    }
    assert_eq!(config_parsed_value(Some(9), "P", present("x"), Some(1), 2), Ok(9));
    assert_eq!(config_parsed_value(None, "P", EnvValue::Absent, Some(1), 2), Ok(1));
    assert_eq!(config_parsed_value(None, "P", EnvValue::Absent, None, 2), Ok(2));
    assert_eq!(
        config_parsed_value(None, "P", EnvValue::NotUnicode, Some(1), 2),
        Err(ConfigError::EnvNotUnicode { var: "P".to_string() })
    );
}

#[test]
fn test_config_level_value_reads_a_level() {
    for (text, level) in [
        ("error", LogLevel::Error),
        ("WARN", LogLevel::Warn),
        ("Info", LogLevel::Info),
        ("dEbUg", LogLevel::Debug),
        ("trace", LogLevel::Trace),
    ] {
        assert_eq!(
            config_level_value(None, "L", present(text), None, LogLevel::Error),
            Ok(level)
        );
    }
    for text in ["", "warning", " info", "tracé", "ınfo"] {
        assert_eq!(
            config_level_value(None, "L", present(text), None, LogLevel::Error),
            Err(ConfigError::LogLevelInvalid { var: "L".to_string(), value: text.to_string() })
        );
    }
    for (text, lower) in [("LOUD", "loud"), ("Warn ing", "warn ing"), ("TRACÉ", "tracÉ")] {
        assert_eq!(
            config_level_value(None, "L", present(text), None, LogLevel::Error),
            Err(ConfigError::LogLevelInvalid { var: "L".to_string(), value: lower.to_string() })
        );
    }
    assert_eq!(LogLevel::from_name("warn"), Some(LogLevel::Warn));
    assert_eq!(LogLevel::from_name("WARN"), None);
    assert_eq!(
        config_level_value(Some(LogLevel::Debug), "L", present("x"), None, LogLevel::Error),
        Ok(LogLevel::Debug)
    );
    assert_eq!(
        config_level_value(None, "L", EnvValue::Absent, Some(LogLevel::Warn), LogLevel::Error),
        Ok(LogLevel::Warn)
    );
    assert_eq!(
        config_level_value(None, "L", EnvValue::Absent, None, LogLevel::Error),
        Ok(LogLevel::Error)
    );
}

#[test]
fn test_env_value() {
    assert_eq!(env_value("V", present("x")), Ok(Some("x".to_string())));
    assert_eq!(env_value("V", EnvValue::Absent), Ok(None));
    assert_eq!(
        env_value("V", EnvValue::NotUnicode),
        Err(ConfigError::EnvNotUnicode { var: "V".to_string() })
    );
}

#[test]
fn test_log_level_names() {
    let levels =
        [LogLevel::Error, LogLevel::Warn, LogLevel::Info, LogLevel::Debug, LogLevel::Trace];
    let names = ["error", "warn", "info", "debug", "trace"];
    for (level, name) in levels.iter().zip(names) {
        assert_eq!(level.as_str(), name);
        assert_eq!(LogLevel::parse(name), Some(*level));
        assert_eq!(LogLevel::parse(&name.to_uppercase()), Some(*level));
    }
    assert_eq!(LogLevel::parse("verbose"), None);
}

#[test]
fn test_config_error_messages() {
    assert_eq!(
        ConfigError::EnvNotUnicode { var: "PLAZER_HOST".to_string() }.message(),
        "Environment variable PLAZER_HOST is not valid unicode"
    );
    assert_eq!(
        ConfigError::EnvInvalid { var: "PLAZER_PORT".to_string(), value: "x".to_string() }
            .message(),
        "Invalid value `x` in environment variable PLAZER_PORT"
    );
    assert_eq!(
        ConfigError::LogLevelInvalid { var: "V".to_string(), value: "loud".to_string() }.message(),
        "Invalid log level \"loud\" in environment variable V"
    );
    assert_eq!(
        ConfigError::LogLevelInvalid { var: "V".to_string(), value: "a\"b\\c\n".to_string() }
            .message(),
        "Invalid log level \"a\\\"b\\\\c\\n\" in environment variable V"
    );
    assert_eq!(
        ConfigError::PrivateKeyNotFound { path: "./k.pem".to_string() }.message(),
        "Private key not found at ./k.pem"
    );
    assert_eq!(ConfigError::PrivateKeyUnreadable.message(), "Unable to read private key");
}

#[test]
fn test_log_config() {
    let mut config = defaults();
    config.log_dir = "./l".to_string();
    config.log_level_stdout = LogLevel::Debug;
    assert_eq!(
        config.log_config(),
        LogConfig {
            dir: "./l".to_string(),
            level_stdout: LogLevel::Debug,
            level_file: DEFAULT_LOG_LEVEL_FILE
        }
    );
}

#[test]
fn test_private_key_resolution() {
    let mut config = defaults();
    assert_eq!(config.key_source(), KeySource::File(DEFAULT_PRIVATE_KEY_PATH.to_string()));
    assert_eq!(
        config.key_after_read(KeyRead::Found("pem".to_string())),
        Ok(KeyStep::Use("pem".to_string()))
    );
    assert_eq!(
        config.key_after_read(KeyRead::NotFound),
        Err(ConfigError::PrivateKeyNotFound { path: DEFAULT_PRIVATE_KEY_PATH.to_string() })
    );
    assert_eq!(config.key_after_read(KeyRead::Failed), Err(ConfigError::PrivateKeyUnreadable));
    config.private_key_create = Some(PrivateKeyCreate);
    assert_eq!(
        config.key_after_read(KeyRead::NotFound),
        Ok(KeyStep::Create(DEFAULT_PRIVATE_KEY_PATH.to_string()))
    );
    config.private_key = Some("inline".to_string());
    assert_eq!(config.key_source(), KeySource::Inline("inline".to_string()));
}
