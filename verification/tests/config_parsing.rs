use matrix_bot_help::Config;
use matrix_bot_help::ConfigError;
use matrix_bot_help::HelpFormat;

#[test]
fn test_minimal_config_parsing() {
    // Given a minimal TOML configuration with only required fields
    let toml_str = "homeserver = \"https://matrix.example.com\"\n\
                    username = \"@bot:example.com\"\n\
                    access_token = \"secret_token\"\n\
                    help_file = \"help.md\"\n";

    // When parsing the TOML configuration
    let config = Config::from_toml(toml_str).unwrap();

    // Then all required fields should be parsed correctly and defaults should be applied
    assert_eq!(config.homeserver, "https://matrix.example.com");
    assert_eq!(config.username, "@bot:example.com");
    assert_eq!(config.access_token, "secret_token");
    assert_eq!(config.log_file, "bot.log");
    assert_eq!(config.working_dir, ".");
    assert_eq!(config.help_file, "help.md");
    assert_eq!(config.help_format, HelpFormat::Plain);
    // Bot filtering should use defaults when not specified
    assert!(config.bot_filtering.ignore_self);
    assert!(!config.bot_filtering.ignore_bots);
    assert!(config.bot_filtering.ignored_users.is_empty());
}

#[test]
fn test_full_config_parsing() {
    // Given a complete TOML configuration with all optional fields
    let toml_str = "homeserver = \"https://matrix.example.com\"\n\
                    username = \"@bot:example.com\"\n\
                    access_token = \"secret_token\"\n\
                    log_file = \"/var/log/bot.log\"\n\
                    working_directory = \"/app\"\n\
                    help_file = \"/path/to/help.md\"\n\
                    help_format = \"markdown\"\n\
                    \n\
                    [bot_filtering]\n\
                    ignore_self = false\n\
                    ignore_bots = true\n\
                    ignored_users = [\"@spam-bot:example.com\", \"@announcement-bot:example.com\"]\n";

    // When parsing the TOML configuration
    let config = Config::from_toml(toml_str).unwrap();

    // Then all fields should be parsed with their specified values
    assert_eq!(config.homeserver, "https://matrix.example.com");
    assert_eq!(config.username, "@bot:example.com");
    assert_eq!(config.access_token, "secret_token");
    assert_eq!(config.log_file, "/var/log/bot.log");
    assert_eq!(config.working_dir, "/app");
    assert_eq!(config.help_file, "/path/to/help.md");
    assert_eq!(config.help_format, HelpFormat::Markdown);
    assert!(!config.bot_filtering.ignore_self);
    assert!(config.bot_filtering.ignore_bots);
    assert_eq!(config.bot_filtering.ignored_users.len(), 2);
    assert!(
        config
            .bot_filtering
            .ignored_users
            .contains(&"@spam-bot:example.com".to_string())
    );
    assert!(
        config
            .bot_filtering
            .ignored_users
            .contains(&"@announcement-bot:example.com".to_string())
    );
}

#[test]
fn test_missing_homeserver_error() {
    // Given a TOML configuration missing the homeserver field
    let toml_str = "username = \"@bot:example.com\"\n\
                    access_token = \"secret_token\"\n\
                    help_file = \"help.md\"\n";

    // When parsing the TOML configuration
    let result = Config::from_toml(toml_str);

    // Then it should return an error indicating the missing field
    assert!(result.is_err());
    assert!(
        result
            .unwrap_err()
            .message()
            .contains("Missing 'homeserver'")
    );
}

#[test]
fn test_missing_username_error() {
    // Given a TOML configuration missing the username field
    let toml_str = "homeserver = \"https://matrix.example.com\"\n\
                    access_token = \"secret_token\"\n\
                    help_file = \"help.md\"\n";

    // When parsing the TOML configuration
    let result = Config::from_toml(toml_str);

    // Then it should return an error indicating the missing field
    assert!(result.is_err());
    assert!(
        result
            .unwrap_err()
            .message()
            .contains("Missing 'username'")
    );
}

#[test]
fn test_missing_access_token_error() {
    // Given a TOML configuration missing the access_token field
    let toml_str = "homeserver = \"https://matrix.example.com\"\n\
                    username = \"@bot:example.com\"\n\
                    help_file = \"help.md\"\n";

    // When parsing the TOML configuration
    let result = Config::from_toml(toml_str);

    // Then it should return an error indicating the missing field
    assert!(result.is_err());
    assert!(
        result
            .unwrap_err()
            .message()
            .contains("Missing 'access_token'")
    );
}

#[test]
fn test_missing_help_file_error() {
    // Given a TOML configuration missing the help_file field
    let toml_str = "homeserver = \"https://matrix.example.com\"\n\
                    username = \"@bot:example.com\"\n\
                    access_token = \"secret_token\"\n";

    // When parsing the TOML configuration
    let result = Config::from_toml(toml_str);

    // Then it should return an error indicating the missing field
    assert!(result.is_err());
    assert!(
        result
            .unwrap_err()
            .message()
            .contains("Missing 'help_file'")
    );
}

#[test]
fn test_invalid_toml_syntax_error() {
    // Given a TOML configuration with invalid syntax
    let toml_str = "homeserver = \"https://matrix.example.com\"\n\
                    username = \"@bot:example.com\"\n\
                    access_token = \"secret_token\"\n\
                    invalid_syntax = [\n";

    // When parsing the TOML configuration
    let result = Config::from_toml(toml_str);

    // Then it should return an error indicating TOML parsing failure
    assert!(result.is_err());
    assert!(
        result
            .unwrap_err()
            .message()
            .contains("Failed to parse TOML")
    );
}

#[test]
fn test_help_format_parsing() {
    // Given TOML configurations with different help formats
    let base = "homeserver = \"https://matrix.example.com\"\n\
                username = \"@bot:example.com\"\n\
                access_token = \"secret_token\"\n\
                help_file = \"help.md\"\n";

    let plain_toml = format!("{}help_format = \"plain\"\n", base);
    let html_toml = format!("{}help_format = \"html\"\n", base);
    let markdown_toml = format!("{}help_format = \"markdown\"\n", base);
    let md_short_toml = format!("{}help_format = \"md\"\n", base);
    let invalid_toml = format!("{}help_format = \"invalid\"\n", base);

    // When parsing the configurations
    let plain_config = Config::from_toml(&plain_toml).unwrap();
    let html_config = Config::from_toml(&html_toml).unwrap();
    let markdown_config = Config::from_toml(&markdown_toml).unwrap();
    let md_short_config = Config::from_toml(&md_short_toml).unwrap();
    let invalid_result = Config::from_toml(&invalid_toml);

    // Then valid formats should parse correctly
    assert_eq!(plain_config.help_format, HelpFormat::Plain);
    assert_eq!(html_config.help_format, HelpFormat::Html);
    assert_eq!(markdown_config.help_format, HelpFormat::Markdown);
    assert_eq!(md_short_config.help_format, HelpFormat::Markdown);

    // And invalid format should return error
    assert!(invalid_result.is_err());
    assert!(
        invalid_result
            .unwrap_err()
            .message()
            .contains("Invalid help format")
    );
}

#[test]
fn test_join_detection_config_parsing() {
    // Given TOML configurations with different join detection settings
    let enabled_toml = "homeserver = \"https://matrix.example.com\"\n\
                        username = \"@bot:example.com\"\n\
                        access_token = \"secret_token\"\n\
                        help_file = \"help.md\"\n\
                        \n\
                        [join_detection]\n\
                        enabled = true\n\
                        monitored_rooms = [\"!room1:example.com\", \"!room2:example.com\"]\n\
                        send_welcome = true\n\
                        welcome_message = \"Welcome! Type !help for assistance.\"\n\
                        welcome_format = \"markdown\"\n";

    let disabled_toml = "homeserver = \"https://matrix.example.com\"\n\
                         username = \"@bot:example.com\"\n\
                         access_token = \"secret_token\"\n\
                         help_file = \"help.md\"\n\
                         \n\
                         [join_detection]\n\
                         enabled = false\n";

    let all_rooms_toml = "homeserver = \"https://matrix.example.com\"\n\
                          username = \"@bot:example.com\"\n\
                          access_token = \"secret_token\"\n\
                          help_file = \"help.md\"\n";

    // When parsing the configurations
    let enabled_config = Config::from_toml(enabled_toml).unwrap();
    let disabled_config = Config::from_toml(disabled_toml).unwrap();
    let all_rooms_config = Config::from_toml(all_rooms_toml).unwrap();

    // Then configurations should be parsed correctly
    assert!(enabled_config.join_detection.enabled);
    assert_eq!(enabled_config.join_detection.monitored_rooms.len(), 2);
    assert!(
        enabled_config
            .join_detection
            .monitored_rooms
            .contains(&"!room1:example.com".to_string())
    );
    assert!(
        enabled_config
            .join_detection
            .monitored_rooms
            .contains(&"!room2:example.com".to_string())
    );
    assert!(enabled_config.join_detection.send_welcome);
    assert_eq!(
        enabled_config.join_detection.welcome_message,
        "Welcome! Type !help for assistance."
    );
    assert_eq!(
        enabled_config.join_detection.welcome_format,
        HelpFormat::Markdown
    );

    assert!(!disabled_config.join_detection.enabled);
    assert!(disabled_config.join_detection.monitored_rooms.is_empty());
    assert!(!disabled_config.join_detection.send_welcome);

    assert!(all_rooms_config.join_detection.enabled);
    assert!(all_rooms_config.join_detection.monitored_rooms.is_empty());
    assert!(!all_rooms_config.join_detection.send_welcome);
    assert_eq!(
        all_rooms_config.join_detection.welcome_message,
        "Welcome to the room! Type !help for assistance."
    );
    assert_eq!(
        all_rooms_config.join_detection.welcome_format,
        HelpFormat::Plain
    );
}

#[test]
fn test_join_detection_config_with_timeout() {
    // Given TOML configuration with custom welcome timeout
    let toml_str = "homeserver = \"https://matrix.example.com\"\n\
                    username = \"@bot:example.com\"\n\
                    access_token = \"secret_token\"\n\
                    help_file = \"help.md\"\n\
                    \n\
                    [join_detection]\n\
                    enabled = true\n\
                    send_welcome = true\n\
                    welcome_timeout_seconds = 600\n";

    // When parsing the configuration
    let config = Config::from_toml(toml_str).unwrap();

    // Then the timeout should be parsed correctly
    assert_eq!(config.join_detection.welcome_timeout_seconds, 600);
}

#[test]
fn test_invalid_welcome_format_error() {
    // A join_detection section whose welcome_format names no known format
    let toml_str = "homeserver = \"https://matrix.example.com\"\n\
                    username = \"@bot:example.com\"\n\
                    access_token = \"secret_token\"\n\
                    help_file = \"help.md\"\n\
                    \n\
                    [join_detection]\n\
                    welcome_format = \"sgml\"\n";

    let result = Config::from_toml(toml_str);

    assert!(result.is_err());
    let err = result.unwrap_err();
    assert!(matches!(err, ConfigError::InvalidFormat(_)));
    assert_eq!(
        err.message(),
        "Invalid help format 'sgml'. Valid options are: plain, html, markdown"
    );
}

#[test]
fn test_invalid_help_format_reported_before_welcome_format() {
    // With both format entries invalid, the top-level one is the first
    // fault read, so it is the one reported
    let toml_str = "homeserver = \"h\"\n\
                    username = \"u\"\n\
                    access_token = \"t\"\n\
                    help_file = \"f\"\n\
                    help_format = \"first\"\n\
                    \n\
                    [join_detection]\n\
                    welcome_format = \"second\"\n";

    let err = Config::from_toml(toml_str).unwrap_err();
    assert!(err.message().contains("Invalid help format 'first'"));
}

#[test]
fn test_error_variants_and_messages() {
    // Each missing-field rejection comes as its own variant, first
    // missing field first
    let empty = Config::from_toml("");
    assert!(matches!(empty, Err(ConfigError::MissingHomeserver)));
    assert_eq!(
        empty.unwrap_err().message(),
        "Missing 'homeserver' in config file"
    );

    let only_home = Config::from_toml("homeserver = \"h\"\n");
    assert!(matches!(only_home, Err(ConfigError::MissingUsername)));

    let up_to_user = Config::from_toml("homeserver = \"h\"\nusername = \"u\"\n");
    assert!(matches!(up_to_user, Err(ConfigError::MissingAccessToken)));

    let up_to_token =
        Config::from_toml("homeserver = \"h\"\nusername = \"u\"\naccess_token = \"t\"\n");
    assert!(matches!(up_to_token, Err(ConfigError::MissingHelpFile)));

    let bad_syntax = Config::from_toml("homeserver = [");
    assert!(matches!(bad_syntax, Err(ConfigError::TomlSyntax(_))));
}

#[test]
fn test_non_string_entries_fall_back() {
    // Entries of the wrong type read as absent: defaults apply
    let toml_str = "homeserver = \"h\"\n\
                    username = \"u\"\n\
                    access_token = \"t\"\n\
                    help_file = \"f\"\n\
                    log_file = 7\n\
                    \n\
                    [bot_filtering]\n\
                    ignore_self = \"yes\"\n\
                    ignored_users = [\"@a:x\", 3, \"@b:x\"]\n";

    let config = Config::from_toml(toml_str).unwrap();
    assert_eq!(config.log_file, "bot.log");
    assert!(config.bot_filtering.ignore_self);
    // Non-string entries of the list are passed over, order kept
    assert_eq!(
        config.bot_filtering.ignored_users,
        vec!["@a:x".to_string(), "@b:x".to_string()]
    );
}

#[test]
fn test_describe_lines_report() {
    let toml_str = "homeserver = \"https://matrix.example.com\"\n\
                    username = \"@bot:example.com\"\n\
                    access_token = \"secret_token\"\n\
                    help_file = \"help.md\"\n\
                    \n\
                    [join_detection]\n\
                    send_welcome = true\n\
                    welcome_timeout_seconds = 600\n";

    let config = Config::from_toml(toml_str).unwrap();
    let lines = config.describe_lines();

    assert_eq!(lines[0], "Configuration:");
    assert!(lines.contains(&"  Homeserver: https://matrix.example.com".to_string()));
    assert!(lines.contains(&"  Username: @bot:example.com".to_string()));
    assert!(lines.contains(&"  Access Token: [set]".to_string()));
    assert!(lines.contains(&"  Help Format: plain".to_string()));
    assert!(lines.contains(&"    Ignored Users: [none]".to_string()));
    assert!(lines.contains(&"    Monitored Rooms: [all rooms]".to_string()));
    assert!(lines.contains(&"    Send Welcome: true".to_string()));
    assert!(lines.contains(
        &"    Welcome Message: Welcome to the room! Type !help for assistance.".to_string()
    ));
    assert!(lines.contains(&"    Welcome Timeout: 600 seconds".to_string()));
}
