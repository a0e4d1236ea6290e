use bloom::config::ConfigError;
use bloom::config::extract_hexo_path;
use bloom::config::load_config;
use bloom::config::parse_config;

#[test]
fn load_config_returns_the_configured_path() {
    let text = "[hexo]\npath = \"./site\"\n";
    assert_eq!(load_config(text), Ok("./site".to_string()));
}

#[test]
fn load_config_missing_hexo_table_is_missing_key() {
    let text = "[other]\npath = \"./site\"\n";
    assert_eq!(load_config(text), Err(ConfigError::MissingKey));
}

#[test]
fn load_config_missing_path_key_is_missing_key() {
    let text = "[hexo]\nroot = \"./site\"\n";
    assert_eq!(load_config(text), Err(ConfigError::MissingKey));
}

#[test]
fn load_config_non_string_path_is_missing_key() {
    let text = "[hexo]\npath = 3\n";
    assert_eq!(load_config(text), Err(ConfigError::MissingKey));
}

#[test]
fn load_config_empty_document_is_missing_key() {
    assert_eq!(load_config(""), Err(ConfigError::MissingKey));
}

#[test]
fn load_config_invalid_toml_is_parse_error() {
    let text = "[hexo\npath = \"./site\"\n";
    let r = load_config(text);
    assert!(matches!(r, Err(ConfigError::Parse(_))));
}

#[test]
fn parse_config_accepts_valid_and_rejects_invalid() {
    assert!(parse_config("[hexo]\npath = \"x\"\n").is_ok());
    assert!(matches!(parse_config("= nonsense"), Err(ConfigError::Parse(_))));
}

#[test]
fn extract_hexo_path_reads_the_nested_string() {
    let config: toml::Value = toml::from_str("[hexo]\npath = \"./blog\"\n").unwrap();
    assert_eq!(extract_hexo_path(&config), Ok("./blog".to_string()));
}

#[test]
fn extract_hexo_path_on_scalar_document_is_missing_key() {
    let config: toml::Value = toml::from_str("path = \"./blog\"\n").unwrap();
    assert_eq!(extract_hexo_path(&config), Err(ConfigError::MissingKey));
}

#[test]
fn missing_key_diagnostic_names_the_hexo_path() {
    assert_eq!(ConfigError::MissingKey.message(), "no hexo path config".to_string());
}

#[test]
fn io_and_parse_diagnostics_carry_their_message() {
    assert_eq!(ConfigError::Io("file gone".to_string()).message(), "file gone".to_string());
    assert_eq!(ConfigError::Parse("bad text".to_string()).message(), "bad text".to_string());
}
