use seris::config::{config_file_components, AppConfig};
use seris::types::SerisError;

#[test]
fn validate_accepts_non_empty_values() {
    let config = AppConfig {
        discord_token: "token".to_string(),
        nasa_api_key: "key".to_string(),
    };

    assert!(config.validate().is_ok());
}

#[test]
fn validate_rejects_empty_discord_token() {
    let config = AppConfig {
        discord_token: String::new(),
        nasa_api_key: "key".to_string(),
    };

    assert!(config.validate().is_err());
}

#[test]
fn validate_names_the_blank_field() {
    let config = AppConfig {
        discord_token: "token".to_string(),
        nasa_api_key: " \t\u{3000}".to_string(),
    };

    match config.validate() {
        Err(SerisError::InvalidConfig { field, reason }) => {
            assert_eq!(field, "nasa_api_key");
            assert_eq!(reason, "must not be empty");
        }
        _ => panic!("expected an invalid nasa_api_key"),
    }

    let both_blank = AppConfig {
        discord_token: "   ".to_string(),
        nasa_api_key: String::new(),
    };
    match both_blank.validate() {
        Err(SerisError::InvalidConfig { field, .. }) => assert_eq!(field, "discord_token"),
        _ => panic!("expected an invalid discord_token"),
    }
}

#[test]
fn config_path_prefers_explicit_then_xdg_then_home() {
    assert_eq!(
        config_file_components(
            Some("/etc/seris.toml".to_string()),
            Some("/xdg".to_string()),
            Some("/home/u".to_string())
        ),
        Some(vec!["/etc/seris.toml".to_string()])
    );
    assert_eq!(
        config_file_components(None, Some("/xdg".to_string()), Some("/home/u".to_string())),
        Some(vec![
            "/xdg".to_string(),
            "seris".to_string(),
            "config.toml".to_string()
        ])
    );
    assert_eq!(
        config_file_components(None, None, Some("/home/u".to_string())),
        Some(vec![
            "/home/u".to_string(),
            ".config".to_string(),
            "seris".to_string(),
            "config.toml".to_string()
        ])
    );
    assert_eq!(config_file_components(None, None, None), None);
}
