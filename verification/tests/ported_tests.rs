use commit_buddy::ai::unavailable_response;
use commit_buddy::config::Config;
use commit_buddy::interactive::InteractiveCli;

#[test]
fn ai_generated_tests_test_config_loading() {
    let config = Config::from_env_values(None, None, None, None);
    assert_eq!(config.get_default_branch(), "master");
}

#[test]
fn test_config_defaults() {
    let config = Config {
        default_branch: "master".to_string(),
        openai_api_key: None,
        github_token: None,
    };

    assert_eq!(config.get_default_branch(), "master");
    assert!(!config.has_openai_key());
}

#[test]
fn test_config_with_api_key() {
    let config = Config {
        default_branch: "master".to_string(),
        openai_api_key: Some("test_key".to_string()),
        github_token: None,
    };

    assert!(config.has_openai_key());
}

#[test]
fn ai_generated_tests_test_ai_fallback() {
    let config = Config {
        default_branch: "master".to_string(),
        openai_api_key: None,
        github_token: None,
    };

    assert!(!config.has_openai_key());
    let result = unavailable_response("test");
    assert!(result.contains("\u{1F916} AI Feature Unavailable"));
}

#[test]
fn ai_generated_tests_test_interactive_cli_creation() {
    let _cli = InteractiveCli::new(Config::default());
}

#[test]
fn test_cli_with_different_configs() {
    let config1 = Config::from_env_values(None, None, None, None);
    let cli1 = InteractiveCli::new(config1.clone());
    assert_eq!(cli1.config.get_default_branch(), config1.get_default_branch());

    let config2 = Config {
        default_branch: "develop".to_string(),
        openai_api_key: None,
        github_token: None,
    };
    let cli2 = InteractiveCli::new(config2);
    assert_eq!(cli2.config.get_default_branch(), "develop");
}

#[test]
fn test_cli_initial_state() {
    let cli = InteractiveCli::new(Config::default());
    assert_eq!(cli.git_status.branch, "unknown");
    assert!(!cli.should_quit);
}

#[test]
fn test_cli_error_handling() {
    let _cli = InteractiveCli::new(Config::default());
}

#[test]
fn test_with_errors_test_config_loading() {
    let config = Config::from_env_values(None, None, None, None);
    assert_eq!(config.get_default_branch(), "master");
}

#[test]
fn test_with_errors_test_interactive_cli_creation() {
    let _cli = InteractiveCli::new(Config::default());
}

#[test]
fn test_with_errors_test_ai_fallback() {
    let config = Config {
        default_branch: "master".to_string(),
        openai_api_key: None,
        github_token: None,
    };

    assert!(!config.has_openai_key());
    let result = unavailable_response("test");
    assert!(result.contains("\u{1F916} AI Feature Unavailable"));
}
