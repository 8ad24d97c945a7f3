use streamer::log_control::{level_command, parse_log_command, read_command, LogCommand, LOG_PREFIX};

#[test]
fn every_level_is_accepted() {
    for level in ["trace", "debug", "info", "warn", "error"] {
        assert_eq!(
            parse_log_command(&format!("log {}", level)),
            LogCommand::SetLevel(level.to_string())
        );
    }
}

#[test]
fn case_and_surrounding_space_do_not_matter() {
    assert_eq!(LOG_PREFIX, "log ");
    assert_eq!(parse_log_command("  LOG Debug \n"), LogCommand::SetLevel("debug".to_string()));
    assert_eq!(parse_log_command("log    warn"), LogCommand::SetLevel("warn".to_string()));
    assert_eq!(parse_log_command("Log\tinfo"), LogCommand::UnknownCommand("log\tinfo".to_string()));
    assert_eq!(parse_log_command("log \tinfo"), LogCommand::SetLevel("info".to_string()));
}

#[test]
fn unknown_level_is_reported() {
    assert_eq!(
        parse_log_command("log verbose"),
        LogCommand::UnknownLevel("verbose".to_string())
    );
    assert_eq!(parse_log_command("log  x y"), LogCommand::UnknownLevel("x y".to_string()));
    assert_eq!(parse_log_command("log debug2"), LogCommand::UnknownLevel("debug2".to_string()));
}

#[test]
fn other_input_is_an_unknown_command() {
    assert_eq!(parse_log_command("help"), LogCommand::UnknownCommand("help".to_string()));
    assert_eq!(parse_log_command("log"), LogCommand::UnknownCommand("log".to_string()));
    assert_eq!(parse_log_command("  LOG  "), LogCommand::UnknownCommand("log".to_string()));
    assert_eq!(parse_log_command("logdebug"), LogCommand::UnknownCommand("logdebug".to_string()));
    assert_eq!(
        parse_log_command("set log debug"),
        LogCommand::UnknownCommand("set log debug".to_string())
    );
}

#[test]
fn empty_line_is_nothing() {
    assert_eq!(parse_log_command(""), LogCommand::Nothing);
    assert_eq!(parse_log_command("   \t\r\n"), LogCommand::Nothing);
}

#[test]
fn level_argument_is_matched_exactly() {
    assert_eq!(level_command("info"), LogCommand::SetLevel("info".to_string()));
    assert_eq!(level_command("INFO"), LogCommand::UnknownLevel("INFO".to_string()));
    assert_eq!(level_command(" info"), LogCommand::UnknownLevel(" info".to_string()));
    assert_eq!(level_command(""), LogCommand::UnknownLevel(String::new()));
}

#[test]
fn normalised_line_is_read_without_further_folding() {
    assert_eq!(read_command("log error"), LogCommand::SetLevel("error".to_string()));
    assert_eq!(read_command("log  error "), LogCommand::SetLevel("error".to_string()));
    assert_eq!(read_command("LOG error"), LogCommand::UnknownCommand("LOG error".to_string()));
    assert_eq!(read_command("log "), LogCommand::UnknownLevel(String::new()));
    assert_eq!(read_command(""), LogCommand::Nothing);
}
