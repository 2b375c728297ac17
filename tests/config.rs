use abiogenesis::config::{config_path_from, config_report, Config, ConfigLoader, ConfigPathProvider, ConfigError};

struct FixedDir(String);

impl ConfigPathProvider for FixedDir {
    fn get_base_dir(&self) -> Result<String, ConfigError> {
        Ok(self.0.clone())
    }
}

#[test]
fn test_default_config_has_no_api_key() {
    let config = Config::default();
    assert!(config.anthropic_api_key.is_none());
}

#[test]
fn test_get_api_key_returns_none_when_not_set() {
    let config = Config::default();
    assert!(config.get_api_key().is_none());
}

#[test]
fn test_get_api_key_returns_value_when_set() {
    let config = Config {
        anthropic_api_key: Some("test-key".to_string()),
    };
    assert_eq!(config.get_api_key(), Some(&"test-key".to_string()));
}

#[test]
fn test_config_loader_default() {
    let loader = ConfigLoader::default();
    let dir = loader.get_config_dir().unwrap();
    assert!(dir.ends_with(".abiogenesis"));
}

#[test]
fn test_config_loader_get_config_path() {
    let loader = ConfigLoader::with_provider(Box::new(FixedDir("/tmp/conf".to_string())));
    let path = loader.get_config_path().unwrap();
    assert_eq!(path, "/tmp/conf/config.toml");
}

#[test]
fn test_config_loader_get_config_dir() {
    let loader = ConfigLoader::with_provider(Box::new(FixedDir("/tmp/conf".to_string())));
    let dir = loader.get_config_dir().unwrap();
    assert_eq!(dir, "/tmp/conf");
}

#[test]
fn config_path_keeps_the_lookup_error() {
    let r = config_path_from(Err(ConfigError::NoHomeDirectory));
    assert!(matches!(r, Err(ConfigError::NoHomeDirectory)));
    let r = config_path_from(Ok("/home/u/.abiogenesis/".to_string()));
    assert_eq!(r.unwrap(), "/home/u/.abiogenesis/config.toml");
}

#[test]
fn test_show_config_info_when_config_file_missing() {
    let output_str = config_report("/x/config.toml", None, "/x/ergo.log");
    assert!(output_str.contains("Configuration file:"));
    assert!(output_str.contains("Status: Not found (using defaults)"));
    assert!(output_str.contains("Log file:"));
    assert!(output_str.contains("ergo --set-api-key"));
}

#[test]
fn test_show_config_info_when_config_file_exists_with_api_key() {
    let config = Config {
        anthropic_api_key: Some("test-key".to_string()),
    };
    let output_str = config_report("/x/config.toml", Some(&config), "/x/ergo.log");
    assert!(output_str.contains("Status: Found"));
    assert!(output_str.contains("API Key: Set"));
}

#[test]
fn test_show_config_info_when_config_file_exists_without_api_key() {
    let config = Config::default();
    let output_str = config_report("/x/config.toml", Some(&config), "/x/ergo.log");
    assert!(output_str.contains("Status: Found"));
    assert!(output_str.contains("API Key: Not set"));
}

#[test]
fn config_report_exact_text() {
    let output_str = config_report("/c/config.toml", None, "/c/ergo.log");
    assert_eq!(
        output_str,
        "Configuration file: /c/config.toml\nStatus: Not found (using defaults)\n\nLog file: /c/ergo.log\n\nTo set API key:\n  ergo --set-api-key <your-key>\n\nOr set environment variable:\n  export ANTHROPIC_API_KEY=<your-key>\n"
    );
}

#[test]
fn test_home_path_provider_returns_abiogenesis_dir() {
    let provider = abiogenesis::config::HomePathProvider;
    let base_dir = provider.get_base_dir().unwrap();

    assert!(base_dir.ends_with(".abiogenesis"));
}

#[test]
fn set_api_key_sets_the_credential() {
    let mut config = Config::default();
    config.set_api_key("new-api-key".to_string());
    assert_eq!(config.anthropic_api_key, Some("new-api-key".to_string()));
}
