use cratis_core::{get_config, load_config, BackupMode, ConfigError, ConfigHolder, CratisConfig};
use cratis_core::yaml::parse_document;

const EXAMPLE: &str = r#"
client: {id: "c1", name: "laptop"}
backup: {mode: full, watch_directories: ["/home/user/docs"]}
server: {address: "backup.example.com:9000", auth_token: "secret123"}
"#;

#[test]
fn example_scenario_loads_and_reads_back() {
    let mut holder = ConfigHolder::new();
    assert_eq!(load_config(&mut holder, EXAMPLE), Ok(()));
    let config = get_config(&holder).unwrap();
    assert_eq!(config.client.id, "c1");
    assert_eq!(config.client.name, "laptop");
    assert_eq!(config.backup.mode, BackupMode::Full);
    assert_eq!(config.backup.watch_directories, vec!["/home/user/docs".to_string()]);
    assert_eq!(config.backup.exclude, None);
    assert_eq!(config.backup.interval_seconds, None);
    assert_eq!(config.server.address, "backup.example.com:9000");
    assert_eq!(config.server.auth_token, "secret123");
    assert!(config.advanced.is_none());
}

#[test]
fn full_document_round_trips_every_field() {
    let text = r#"
client:
  id: "client-7"
  name: "office desktop"
backup:
  mode: incremental
  watch_directories:
    - /srv/data
    - /etc
  exclude:
    - "*.tmp"
    - "*.log"
  interval_seconds: 3600
server:
  address: "10.0.0.2:8443"
  auth_token: "tok"
advanced:
  max_file_size_mb: 512
  retry_attempts: 4
  retry_delay_seconds: 30
  enable_notifications: true
"#;
    let mut holder = ConfigHolder::new();
    assert_eq!(load_config(&mut holder, text), Ok(()));
    let config = get_config(&holder).unwrap();
    assert_eq!(config.client.id, "client-7");
    assert_eq!(config.client.name, "office desktop");
    assert_eq!(config.backup.mode, BackupMode::Incremental);
    assert_eq!(
        config.backup.watch_directories,
        vec!["/srv/data".to_string(), "/etc".to_string()]
    );
    assert_eq!(
        config.backup.exclude,
        Some(vec!["*.tmp".to_string(), "*.log".to_string()])
    );
    assert_eq!(config.backup.interval_seconds, Some(3600));
    assert_eq!(config.server.address, "10.0.0.2:8443");
    assert_eq!(config.server.auth_token, "tok");
    let advanced = config.advanced.as_ref().unwrap();
    assert_eq!(advanced.max_file_size_mb, Some(512));
    assert_eq!(advanced.retry_attempts, Some(4));
    assert_eq!(advanced.retry_delay_seconds, Some(30));
    assert_eq!(advanced.enable_notifications, Some(true));
}

#[test]
fn second_load_with_identical_content_is_rejected() {
    let mut holder = ConfigHolder::new();
    assert_eq!(load_config(&mut holder, EXAMPLE), Ok(()));
    assert_eq!(
        load_config(&mut holder, EXAMPLE),
        Err(ConfigError::AlreadyInitialized)
    );
    let config = get_config(&holder).unwrap();
    assert_eq!(config.client.name, "laptop");
}

#[test]
fn get_before_load_is_rejected() {
    let holder = ConfigHolder::new();
    assert_eq!(get_config(&holder), Err(ConfigError::NotInitialized));
}

#[test]
fn missing_auth_token_fails_without_partial_initialization() {
    let text = r#"
client: {id: "c1", name: "laptop"}
backup: {mode: full, watch_directories: ["/home/user/docs"]}
server: {address: "backup.example.com:9000"}
"#;
    let mut holder = ConfigHolder::new();
    assert_eq!(load_config(&mut holder, text), Err(ConfigError::Parse));
    assert_eq!(get_config(&holder), Err(ConfigError::NotInitialized));
}

#[test]
fn missing_backup_section_fails() {
    let text = r#"
client: {id: "c1", name: "laptop"}
server: {address: "a:1", auth_token: "t"}
"#;
    let mut holder = ConfigHolder::new();
    assert_eq!(load_config(&mut holder, text), Err(ConfigError::Parse));
}

#[test]
fn unknown_mode_token_fails() {
    let text = r#"
client: {id: "c1", name: "laptop"}
backup: {mode: weekly, watch_directories: ["/home/user/docs"]}
server: {address: "backup.example.com:9000", auth_token: "secret123"}
"#;
    let mut holder = ConfigHolder::new();
    assert_eq!(load_config(&mut holder, text), Err(ConfigError::Parse));
    assert_eq!(get_config(&holder), Err(ConfigError::NotInitialized));
}

#[test]
fn mode_tokens_match_case_insensitively() {
    assert_eq!(BackupMode::parse("full"), Some(BackupMode::Full));
    assert_eq!(BackupMode::parse("FULL"), Some(BackupMode::Full));
    assert_eq!(BackupMode::parse("Full"), Some(BackupMode::Full));
    assert_eq!(BackupMode::parse("incremental"), Some(BackupMode::Incremental));
    assert_eq!(BackupMode::parse("Incremental"), Some(BackupMode::Incremental));
    assert_eq!(BackupMode::parse("INCREMENTAL"), Some(BackupMode::Incremental));
    assert_eq!(BackupMode::parse("weekly"), None);
    assert_eq!(BackupMode::parse("ful"), None);
    assert_eq!(BackupMode::parse(""), None);
    assert_eq!(BackupMode::parse("fullx"), None);
}

#[test]
fn malformed_yaml_fails() {
    let mut holder = ConfigHolder::new();
    assert_eq!(
        load_config(&mut holder, "client: [unclosed"),
        Err(ConfigError::Parse)
    );
}

#[test]
fn wrong_field_type_fails() {
    let text = r#"
client: {id: "c1", name: "laptop"}
backup: {mode: full, watch_directories: "/home/user/docs"}
server: {address: "a:1", auth_token: "t"}
"#;
    let mut holder = ConfigHolder::new();
    assert_eq!(load_config(&mut holder, text), Err(ConfigError::Parse));
}

#[test]
fn negative_interval_fails() {
    let text = r#"
client: {id: "c1", name: "laptop"}
backup: {mode: full, watch_directories: ["/d"], interval_seconds: -5}
server: {address: "a:1", auth_token: "t"}
"#;
    let mut holder = ConfigHolder::new();
    assert_eq!(load_config(&mut holder, text), Err(ConfigError::Parse));
}

#[test]
fn oversized_retry_attempts_fails() {
    let text = r#"
client: {id: "c1", name: "laptop"}
backup: {mode: full, watch_directories: ["/d"]}
server: {address: "a:1", auth_token: "t"}
advanced: {retry_attempts: 4294967296}
"#;
    let mut holder = ConfigHolder::new();
    assert_eq!(load_config(&mut holder, text), Err(ConfigError::Parse));
}

#[test]
fn null_optional_fields_read_as_absent() {
    let text = r#"
client: {id: "c1", name: "laptop"}
backup: {mode: full, watch_directories: ["/d"], exclude: null, interval_seconds: null}
server: {address: "a:1", auth_token: "t"}
advanced: null
"#;
    let mut holder = ConfigHolder::new();
    assert_eq!(load_config(&mut holder, text), Ok(()));
    let config = get_config(&holder).unwrap();
    assert_eq!(config.backup.exclude, None);
    assert_eq!(config.backup.interval_seconds, None);
    assert!(config.advanced.is_none());
}

#[test]
fn unknown_extra_fields_are_ignored() {
    let text = r#"
client: {id: "c1", name: "laptop", color: "blue"}
backup: {mode: full, watch_directories: ["/d"]}
server: {address: "a:1", auth_token: "t"}
extra_section: {anything: 1.5}
"#;
    let mut holder = ConfigHolder::new();
    assert_eq!(load_config(&mut holder, text), Ok(()));
    assert_eq!(get_config(&holder).unwrap().client.name, "laptop");
}

#[test]
fn deeply_nested_ignored_section_loads() {
    let mut nested = String::from("1");
    for _ in 0..80 {
        nested = format!("[{}]", nested);
    }
    let text = format!(
        "client: {{id: \"c1\", name: \"laptop\"}}\n\
         backup: {{mode: full, watch_directories: [\"/d\"]}}\n\
         server: {{address: \"a:1\", auth_token: \"t\"}}\n\
         extra: {}\n",
        nested
    );
    let mut holder = ConfigHolder::new();
    assert_eq!(load_config(&mut holder, &text), Ok(()));
    assert_eq!(get_config(&holder).unwrap().client.name, "laptop");
}

#[test]
fn non_string_keys_in_ignored_values_load() {
    let text = r#"
client: {id: "c1", name: "laptop"}
backup: {mode: full, watch_directories: ["/d"]}
server: {address: "a:1", auth_token: "t"}
extra: {1: "one", 2: "two"}
"#;
    let mut holder = ConfigHolder::new();
    assert_eq!(load_config(&mut holder, text), Ok(()));
}

#[test]
fn non_string_key_in_required_block_fails() {
    let text = r#"
client: {1: "c1", name: "laptop"}
backup: {mode: full, watch_directories: ["/d"]}
server: {address: "a:1", auth_token: "t"}
"#;
    let mut holder = ConfigHolder::new();
    assert_eq!(load_config(&mut holder, text), Err(ConfigError::Parse));
}

#[test]
fn duplicate_keys_are_rejected() {
    // serde_yaml rejects a mapping with a repeated key outright.
    let text = r#"
client: {id: "c1", name: "laptop"}
client: {id: "c2", name: "desktop"}
backup: {mode: full, watch_directories: ["/d"]}
server: {address: "a:1", auth_token: "t"}
"#;
    let mut holder = ConfigHolder::new();
    assert_eq!(load_config(&mut holder, text), Err(ConfigError::Parse));
}

#[test]
fn watch_directory_order_is_kept() {
    let text = r#"
client: {id: "c1", name: "laptop"}
backup: {mode: full, watch_directories: ["/b", "/a", "/c"]}
server: {address: "a:1", auth_token: "t"}
"#;
    let y = parse_document(text).unwrap();
    let config = CratisConfig::from_yaml(&y).unwrap();
    assert_eq!(
        config.backup.watch_directories,
        vec!["/b".to_string(), "/a".to_string(), "/c".to_string()]
    );
}

#[test]
fn error_messages_name_the_condition_and_hide_secrets() {
    let mut holder = ConfigHolder::new();
    assert_eq!(load_config(&mut holder, EXAMPLE), Ok(()));
    let err = load_config(&mut holder, EXAMPLE).unwrap_err();
    assert_eq!(err.message(), "configuration was already initialized");
    assert_eq!(
        ConfigError::FileRead.message(),
        "failed to read the configuration file"
    );
    assert_eq!(
        ConfigError::Parse.message(),
        "configuration is malformed or does not match the schema"
    );
    assert_eq!(
        ConfigError::NotInitialized.message(),
        "configuration has not been initialized"
    );
    assert!(!ConfigError::AlreadyInitialized.message().contains("secret123"));
}
