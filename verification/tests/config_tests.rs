use codestral_test_rs::config::Config;
use codestral_test_rs::error::AppError;

#[test]
fn test_default_config() {
    let config = Config::default();

    assert_eq!(config.code_model, "codestral-latest");
    assert_eq!(config.chat_model, "mistral-large-latest");
    assert_eq!(config.code_api_url, "https://codestral.mistral.ai/v1/fim/completions");
    assert_eq!(config.chat_api_url, "https://api.mistral.ai/v1/chat/completions");
    assert_eq!(config.code_api_key_env, "CODESTRAL_API_KEY");
    assert_eq!(config.chat_api_key_env, "MISTRAL_API_KEY");
    assert_eq!(config.code_temperature_milli, 0);
    assert_eq!(config.chat_temperature_milli, 700);
    assert_eq!(config.max_tokens_code, 512);
    assert_eq!(config.max_tokens_chat, 2048);
    assert_eq!(config.log_directory, "logs");
    assert_eq!(config.config_path, "config.toml");
}

#[test]
fn test_save_and_load_config() {
    let config = Config::default();

    let saved = config.encode();
    let loaded_config = Config::parse(&saved).expect("Failed to load config");

    assert_eq!(config.code_model, loaded_config.code_model);
    assert_eq!(config.chat_model, loaded_config.chat_model);
    assert_eq!(config.code_api_url, loaded_config.code_api_url);
    assert_eq!(config.chat_api_url, loaded_config.chat_api_url);
    assert_eq!(config.code_api_key_env, loaded_config.code_api_key_env);
    assert_eq!(config.chat_api_key_env, loaded_config.chat_api_key_env);
    assert_eq!(config.code_temperature_milli, loaded_config.code_temperature_milli);
    assert_eq!(config.chat_temperature_milli, loaded_config.chat_temperature_milli);
    assert_eq!(config.max_tokens_code, loaded_config.max_tokens_code);
    assert_eq!(config.max_tokens_chat, loaded_config.max_tokens_chat);
    assert_eq!(config.log_directory, loaded_config.log_directory);
    assert_eq!(config.config_path, loaded_config.config_path);
}

#[test]
fn test_generate_default_config() {
    let saved = Config::default().encode();
    let loaded_config = Config::parse(&saved).expect("Failed to load config");

    let default_config = Config::default();
    assert_eq!(default_config.code_model, loaded_config.code_model);
    assert_eq!(default_config.chat_model, loaded_config.chat_model);
}

#[test]
fn test_encode_exact_text() {
    let expected = "code_model = \"codestral-latest\"\n\
                    chat_model = \"mistral-large-latest\"\n\
                    code_temperature_milli = 0\n\
                    chat_temperature_milli = 700\n\
                    code_api_key_env = \"CODESTRAL_API_KEY\"\n\
                    chat_api_key_env = \"MISTRAL_API_KEY\"\n\
                    code_api_url = \"https://codestral.mistral.ai/v1/fim/completions\"\n\
                    chat_api_url = \"https://api.mistral.ai/v1/chat/completions\"\n\
                    max_tokens_code = 512\n\
                    max_tokens_chat = 2048\n\
                    log_directory = \"logs\"\n\
                    config_path = \"config.toml\"\n";
    assert_eq!(Config::default().encode(), expected);
}

#[test]
fn test_round_trip_with_escapes() {
    let mut config = Config::default();
    config.code_model = "a \"quoted\" name".to_string();
    config.chat_model = "line\nbreak\r\ttab".to_string();
    config.log_directory = "back\\slash".to_string();
    config.config_path = String::new();
    config.max_tokens_code = u32::MAX;

    let saved = config.encode();
    let loaded = Config::parse(&saved).expect("Failed to load config");

    assert_eq!(loaded.code_model, "a \"quoted\" name");
    assert_eq!(loaded.chat_model, "line\nbreak\r\ttab");
    assert_eq!(loaded.log_directory, "back\\slash");
    assert_eq!(loaded.config_path, "");
    assert_eq!(loaded.max_tokens_code, u32::MAX);
}

#[test]
fn test_partial_file_uses_field_defaults() {
    let loaded = Config::parse("chat_model = \"other-model\"\nmax_tokens_chat = 99\n")
        .expect("Failed to load config");

    assert_eq!(loaded.chat_model, "other-model");
    assert_eq!(loaded.max_tokens_chat, 99);
    assert_eq!(loaded.code_model, "codestral-latest");
    assert_eq!(loaded.max_tokens_code, 512);
    assert_eq!(loaded.code_temperature_milli, 0);
    assert_eq!(loaded.log_directory, "logs");
}

#[test]
fn test_empty_and_unknown_lines() {
    let loaded = Config::parse("\n\nfuture_key = \"ignored\"\nanother = 7\n\n")
        .expect("Failed to load config");
    assert_eq!(loaded.code_model, "codestral-latest");

    let empty = Config::parse("").expect("Failed to load config");
    assert_eq!(empty.chat_model, "mistral-large-latest");
}

#[test]
fn test_parse_errors() {
    // no separator
    assert!(matches!(Config::parse("garbage"), Err(AppError::Config(_))));
    // known key, wrong value type
    assert!(matches!(
        Config::parse("max_tokens_code = \"many\"\n"),
        Err(AppError::Config(_))
    ));
    assert!(matches!(
        Config::parse("code_model = 5\n"),
        Err(AppError::Config(_))
    ));
    // unterminated string
    assert!(matches!(
        Config::parse("code_model = \"open\n"),
        Err(AppError::Config(_))
    ));
    // integer out of range
    assert!(matches!(
        Config::parse("max_tokens_code = 4294967296\n"),
        Err(AppError::Config(_))
    ));
    // largest value that still fits
    let big = Config::parse("max_tokens_code = 4294967295\n").expect("Failed to load config");
    assert_eq!(big.max_tokens_code, 4294967295);
}
