//! The command-line wrapper's decision logic.

use clad::cli::{build_goose_args, exit_code_from, filter_env_pairs, goose_app_strategy,
    is_goose_subcommand, mode_is_executable, validate_args, Cli, HistoryArgs, ShellArgs,
    MAX_ARG_LENGTH};

#[test]
fn test_is_goose_subcommand_valid() {
    assert!(is_goose_subcommand("configure"));
    assert!(is_goose_subcommand("session"));
    assert!(is_goose_subcommand("run"));
    assert!(is_goose_subcommand("info"));
}

#[test]
fn test_is_goose_subcommand_invalid() {
    assert!(!is_goose_subcommand("invalid"));
    assert!(!is_goose_subcommand(""));
    assert!(!is_goose_subcommand("random"));
}

#[test]
fn test_validate_args_empty() {
    let args: Vec<String> = vec![];
    let result = validate_args(&args);
    assert!(result.is_ok(), "Empty args should be valid");
}

#[test]
fn test_validate_args_normal() {
    let args = vec!["session".to_string(), "test query".to_string()];
    let result = validate_args(&args);
    assert!(result.is_ok(), "Normal args should be valid");
}

#[test]
fn test_validate_args_too_long_individual() {
    let long_arg = "a".repeat(MAX_ARG_LENGTH + 1);
    let args = vec![long_arg];

    let result = validate_args(&args);
    assert!(result.is_err(), "Should reject too-long individual argument");
    assert!(result.unwrap_err().contains("too long"));
}

#[test]
fn test_validate_args_too_long_total() {
    let arg = "a".repeat(1_000_000);
    let args = vec![arg.clone(); 11];

    let result = validate_args(&args);
    assert!(result.is_err(), "Should reject total args length exceeding limit");
    assert!(result.unwrap_err().contains("Total arguments length"));
}

#[test]
fn test_validate_args_null_byte() {
    let args = vec!["test\0query".to_string()];

    let result = validate_args(&args);
    assert!(result.is_err(), "Should reject argument with null byte");
    assert!(result.unwrap_err().contains("null byte"));
}

#[test]
fn test_validate_args_at_boundary() {
    let arg = "a".repeat(MAX_ARG_LENGTH);
    let args = vec![arg];

    let result = validate_args(&args);
    assert!(result.is_ok(), "Should accept argument at exact max length");
}

#[test]
fn test_validate_args_special_characters() {
    let args = vec![
        "query with spaces".to_string(),
        "special!@#$%^&*()".to_string(),
        "unicode: 你好世界 🦀".to_string(),
    ];

    let result = validate_args(&args);
    assert!(result.is_ok(), "Should accept special characters (except null)");
}

#[test]
fn main_test_build_goose_args_interactive() {
    let args = vec!["-i".to_string()];
    let result = build_goose_args(&args);
    assert_eq!(result, vec!["session".to_string()]);

    let args = vec!["--interactive".to_string()];
    let result = build_goose_args(&args);
    assert_eq!(result, vec!["session".to_string()]);
}

#[test]
fn main_test_build_goose_args_query() {
    let args = vec!["what".to_string(), "is".to_string(), "rust".to_string()];
    let result = build_goose_args(&args);

    assert_eq!(result[0], "run");
    assert_eq!(result[1], "-t");
    assert_eq!(result[2], "what");
    assert_eq!(result[3], "is");
    assert_eq!(result[4], "rust");
}

#[test]
fn main_test_build_goose_args_query_with_special_chars() {
    let args = vec!["query with spaces".to_string(), "and!special#chars".to_string()];
    let result = build_goose_args(&args);

    assert_eq!(result[0], "run");
    assert_eq!(result[1], "-t");
    assert_eq!(result[2], "query with spaces");
    assert_eq!(result[3], "and!special#chars");
}

#[test]
fn main_test_build_goose_args_preserves_arg_boundaries() {
    let args = vec!["arg1".to_string(), "arg2".to_string(), "arg3".to_string()];
    let result = build_goose_args(&args);

    assert_eq!(result.len(), 5);
    assert!(
        result.iter().all(|arg| !arg.contains(' ')),
        "Arguments should not be joined with spaces"
    );
}

#[test]
fn chat_test_build_goose_args_interactive() {
    let cli = Cli { interactive: true, query: vec![] };
    let result = cli.build_goose_args();
    assert_eq!(result, vec!["session".to_string()]);
}

#[test]
fn chat_test_build_goose_args_query() {
    let cli = Cli {
        interactive: false,
        query: vec!["what".to_string(), "is".to_string(), "rust".to_string()],
    };
    let result = cli.build_goose_args();

    assert_eq!(result[0], "run");
    assert_eq!(result[1], "-t");
    assert_eq!(result[2], "what");
    assert_eq!(result[3], "is");
    assert_eq!(result[4], "rust");
}

#[test]
fn chat_test_build_goose_args_query_with_special_chars() {
    let cli = Cli {
        interactive: false,
        query: vec!["query with spaces".to_string(), "and!special#chars".to_string()],
    };
    let result = cli.build_goose_args();

    assert_eq!(result[0], "run");
    assert_eq!(result[1], "-t");
    assert_eq!(result[2], "query with spaces");
    assert_eq!(result[3], "and!special#chars");
}

#[test]
fn chat_test_build_goose_args_preserves_arg_boundaries() {
    let cli = Cli {
        interactive: false,
        query: vec!["arg1".to_string(), "arg2".to_string(), "arg3".to_string()],
    };
    let result = cli.build_goose_args();

    assert_eq!(result.len(), 5);
    assert!(
        result.iter().all(|arg| !arg.contains(' ')),
        "Arguments should not be joined with spaces"
    );
}

#[test]
fn test_goose_app_strategy_initialization() {
    let strategy = goose_app_strategy();

    assert_eq!(strategy.top_level_domain, "Block");
    assert_eq!(strategy.author, "Block");
    assert_eq!(strategy.app_name, "goose");
}

#[test]
fn test_goose_app_strategy_is_immutable() {
    let strategy1 = goose_app_strategy();
    let strategy2 = goose_app_strategy();

    assert_eq!(strategy1.app_name, strategy2.app_name);
    assert_eq!(strategy1.author, strategy2.author);
    assert_eq!(strategy1.top_level_domain, strategy2.top_level_domain);
}

#[test]
fn test_get_filtered_env_includes_safe_vars() {
    let vars = vec![
        ("PATH".to_string(), "/usr/bin".to_string()),
        ("HOME".to_string(), "/home/test".to_string()),
        ("GOOSE_MODEL".to_string(), "test-model".to_string()),
    ];

    let filtered = filter_env_pairs(vars);

    assert!(filtered.iter().any(|(k, _)| k == "PATH"));
    assert!(filtered.iter().any(|(k, _)| k == "HOME"));
    assert!(filtered.iter().any(|(k, _)| k == "GOOSE_MODEL"));
}

#[test]
fn test_get_filtered_env_excludes_unsafe_vars() {
    let vars = vec![
        ("RANDOM_VAR".to_string(), "should not pass".to_string()),
        ("MALICIOUS".to_string(), "data".to_string()),
        ("PATH".to_string(), "/usr/bin".to_string()),
    ];

    let filtered = filter_env_pairs(vars);

    assert!(!filtered.iter().any(|(k, _)| k == "RANDOM_VAR"));
    assert!(!filtered.iter().any(|(k, _)| k == "MALICIOUS"));
}

#[test]
fn test_get_filtered_env_allows_goose_prefix() {
    let vars = vec![
        ("GOOSE_DEBUG".to_string(), "true".to_string()),
        ("GOOSE_CUSTOM".to_string(), "value".to_string()),
    ];

    let filtered = filter_env_pairs(vars);

    assert!(filtered.iter().any(|(k, _)| k == "GOOSE_DEBUG"));
    assert!(filtered.iter().any(|(k, _)| k == "GOOSE_CUSTOM"));
}

#[test]
fn test_get_filtered_env_allows_xdg_prefix() {
    let vars = vec![("XDG_CONFIG_HOME".to_string(), "/home/test/.config".to_string())];

    let filtered = filter_env_pairs(vars);

    assert!(filtered.iter().any(|(k, _)| k == "XDG_CONFIG_HOME"));
}

#[test]
fn test_filtered_env_keeps_order_and_values() {
    let vars = vec![
        ("HOME".to_string(), "/home/one".to_string()),
        ("SECRET_THING".to_string(), "x".to_string()),
        ("XDG_DATA_HOME".to_string(), "/home/one/.data".to_string()),
    ];

    let filtered = filter_env_pairs(vars);

    assert_eq!(
        filtered,
        vec![
            ("HOME".to_string(), "/home/one".to_string()),
            ("XDG_DATA_HOME".to_string(), "/home/one/.data".to_string()),
        ]
    );
}

#[test]
fn test_status_to_exit_code_normal() {
    assert_eq!(exit_code_from(Some(0), None), 0);
    assert_eq!(exit_code_from(Some(1), None), 1);
}

#[test]
fn test_status_to_exit_code_signal() {
    assert_eq!(exit_code_from(None, Some(9)), 128 + 9);
    assert_eq!(exit_code_from(None, Some(2)), 128 + 2);
}

#[test]
fn test_exit_code_unknown_status() {
    assert_eq!(exit_code_from(None, None), 1);
}

#[test]
fn test_mode_is_executable_bits() {
    assert!(mode_is_executable(0o755));
    assert!(mode_is_executable(0o100));
    assert!(mode_is_executable(0o010));
    assert!(mode_is_executable(0o001));
    assert!(!mode_is_executable(0o644));
    assert!(!mode_is_executable(0));
}

#[test]
fn test_history_output_lines() {
    let args = HistoryArgs { list: true, verbose: false, limit: 10 };
    let lines = args.output_lines();
    assert_eq!(lines[0], "Hello from history command!");
    assert_eq!(lines[1], "Listing recent history entries (limit: 10)...");

    let bare = HistoryArgs { list: false, verbose: false, limit: 10 };
    let lines = bare.output_lines();
    assert_eq!(lines.len(), 3);
    assert_eq!(lines[1], "This command will show your chat history.");
}

#[test]
fn test_shell_output_lines() {
    let args = ShellArgs {
        install: true,
        uninstall: false,
        status: false,
        shell_type: Some("zsh".to_string()),
    };
    let lines = args.output_lines();
    assert_eq!(lines[0], "Hello from shell command!");
    assert_eq!(lines[1], "Installing shell integration...");
    assert_eq!(lines[2], "Shell type: zsh");

    let status = ShellArgs { install: false, uninstall: false, status: true, shell_type: None };
    let lines = status.output_lines();
    assert_eq!(lines[1], "Checking shell integration status...");
}
