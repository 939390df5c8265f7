use rusty_hunter::settings::{AppConfig, LogFormat, LogLevel};

#[test]
fn log_format_follows_the_output() {
    assert_eq!(LogFormat::for_terminal(true), LogFormat::Plain);
    assert_eq!(LogFormat::for_terminal(false), LogFormat::Json);
}

#[test]
fn log_level_defaults_to_info() {
    assert_eq!(LogLevel::default(), LogLevel::Info);
}

#[test]
fn config_with_defaults_keeps_the_address() {
    let config = AppConfig::with_defaults("tcp://127.0.0.1:13337".to_string(), false);
    assert_eq!(config.server_uri, "tcp://127.0.0.1:13337");
    assert_eq!(config.log_format, LogFormat::Json);
    assert_eq!(config.log_level, LogLevel::Info);
    let on_terminal = AppConfig::with_defaults("tcp://game:1".to_string(), true);
    assert_eq!(on_terminal.log_format, LogFormat::Plain);
}
