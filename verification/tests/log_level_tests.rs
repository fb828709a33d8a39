use server_initializer::log_level::{level_from_value, LogLevel, LogLevelError};
use server_initializer::logger_initializer::{LoggerInitializerWrapperReal, LoggerSettings};
use server_initializer::parameter_finder::{find_value_for, MissingValue};

const USAGE: &str = "should be one of <trace|debug|info|warn|error|off> (default = warn)";

fn strings(tokens: &[&str]) -> Vec<String> {
    tokens.iter().map(|token| String::from(*token)).collect()
}

#[test]
fn get_log_level_returns_warn_by_default() {
    let args: Vec<String> = vec![];
    assert_eq!(LoggerInitializerWrapperReal::get_log_level(&args), Ok(LogLevel::Warn));
}

#[test]
fn get_log_level_returns_log_level_from_args() {
    let args = vec![String::from("--log_level"), String::from("trace")];
    assert_eq!(LoggerInitializerWrapperReal::get_log_level(&args), Ok(LogLevel::Trace));

    let args = vec![String::from("--log_level"), String::from("WaRn")];
    assert_eq!(LoggerInitializerWrapperReal::get_log_level(&args), Ok(LogLevel::Warn));

    let args = vec![String::from("--log_level"), String::from("DebuG")];
    assert_eq!(LoggerInitializerWrapperReal::get_log_level(&args), Ok(LogLevel::Debug));

    let args = vec![String::from("--log_level"), String::from("INFO")];
    assert_eq!(LoggerInitializerWrapperReal::get_log_level(&args), Ok(LogLevel::Info));

    let args = vec![String::from("--log_level"), String::from("Error")];
    assert_eq!(LoggerInitializerWrapperReal::get_log_level(&args), Ok(LogLevel::Error));

    let args = vec![String::from("--log_level"), String::from("off")];
    assert_eq!(LoggerInitializerWrapperReal::get_log_level(&args), Ok(LogLevel::Off));
}

#[test]
#[should_panic(
    expected = "Bad value 'blooga' for --log_level: should be one of <trace|debug|info|warn|error|off> (default = warn)"
)]
fn get_log_level_panics_if_arg_makes_no_sense() {
    let args = vec![
        String::from("--dns_servers"),
        String::from("1.2.3.4"),
        String::from("--log_level"),
        String::from("blooga"),
    ];

    if let Err(e) = LoggerInitializerWrapperReal::get_log_level(&args) {
        panic!("{}", e.message());
    }
}

#[test]
#[should_panic(
    expected = "Missing value for --log_level: should be one of <trace|debug|info|warn|error|off> (default = warn)"
)]
fn get_log_level_panics_if_flag_is_last_with_no_value() {
    let args = vec![String::from("--log_level")];

    if let Err(e) = LoggerInitializerWrapperReal::get_log_level(&args) {
        panic!("{}", e.message());
    }
}

#[test]
fn invalid_value_is_reported_with_the_offending_token() {
    let args = strings(&["--dns_servers", "1.2.3.4", "--log_level", "blooga"]);
    let error = LoggerInitializerWrapperReal::get_log_level(&args).unwrap_err();
    assert_eq!(error, LogLevelError::InvalidValue(String::from("blooga")));
    assert_eq!(error.message(), format!("Bad value 'blooga' for --log_level: {}", USAGE));
}

#[test]
fn missing_value_is_reported_with_the_usage_text() {
    let args = strings(&["--dns_servers", "1.2.3.4", "--log_level"]);
    let error = LoggerInitializerWrapperReal::get_log_level(&args).unwrap_err();
    assert_eq!(error, LogLevelError::MissingValue);
    assert_eq!(error.message(), format!("Missing value for --log_level: {}", USAGE));
}

#[test]
fn every_level_name_resolves_in_either_case() {
    let names = [
        ("trace", LogLevel::Trace),
        ("debug", LogLevel::Debug),
        ("info", LogLevel::Info),
        ("warn", LogLevel::Warn),
        ("error", LogLevel::Error),
        ("off", LogLevel::Off),
    ];
    for (name, level) in names.iter() {
        assert_eq!(level_from_value(name.to_string()), Ok(*level));
        assert_eq!(level_from_value(name.to_uppercase()), Ok(*level));
        let args = vec![String::from("--log_level"), name.to_uppercase()];
        assert_eq!(LoggerInitializerWrapperReal::get_log_level(&args), Ok(*level));
    }
}

#[test]
fn values_that_only_resemble_a_name_are_invalid() {
    for value in ["", "warning", "war", " warn", "warn ", "w\u{430}rn", "\u{130}NFO", "0", "3"].iter() {
        assert_eq!(
            level_from_value(value.to_string()),
            Err(LogLevelError::InvalidValue(value.to_string()))
        );
    }
}

#[test]
fn flag_is_matched_exactly() {
    assert_eq!(LoggerInitializerWrapperReal::get_log_level(&strings(&["--LOG_LEVEL", "trace"])), Ok(LogLevel::Warn));
    assert_eq!(LoggerInitializerWrapperReal::get_log_level(&strings(&["--log_level=trace"])), Ok(LogLevel::Warn));
    assert_eq!(LoggerInitializerWrapperReal::get_log_level(&strings(&["trace", "-log_level"])), Ok(LogLevel::Warn));
}

#[test]
fn first_occurrence_of_the_flag_decides() {
    assert_eq!(
        LoggerInitializerWrapperReal::get_log_level(&strings(&["--log_level", "debug", "--log_level", "off"])),
        Ok(LogLevel::Debug)
    );
    assert_eq!(
        LoggerInitializerWrapperReal::get_log_level(&strings(&["--log_level", "info", "--log_level"])),
        Ok(LogLevel::Info)
    );
    assert_eq!(
        LoggerInitializerWrapperReal::get_log_level(&strings(&["--log_level", "--log_level"])),
        Err(LogLevelError::InvalidValue(String::from("--log_level")))
    );
}

#[test]
fn other_tokens_are_passed_over() {
    let args = strings(&["glorp", "--dns_servers", "1.2.3.4", "--log_level", "ERROR", "trace"]);
    assert_eq!(LoggerInitializerWrapperReal::get_log_level(&args), Ok(LogLevel::Error));
    assert_eq!(LoggerInitializerWrapperReal::get_log_level(&strings(&["glorp"])), Ok(LogLevel::Warn));
}

#[test]
fn resolution_is_repeatable() {
    let args = strings(&["--log_level", "blooga"]);
    assert_eq!(LoggerInitializerWrapperReal::get_log_level(&args), LoggerInitializerWrapperReal::get_log_level(&args));
    let args = strings(&["--log_level", "Trace"]);
    assert_eq!(LoggerInitializerWrapperReal::get_log_level(&args), LoggerInitializerWrapperReal::get_log_level(&args));
}

#[test]
fn find_value_for_returns_the_token_after_the_flag() {
    let args = strings(&["a", "--host", "alpha", "--host", "beta"]);
    assert_eq!(find_value_for(&args, "--host"), Ok(Some(String::from("alpha"))));
    assert_eq!(find_value_for(&args, "a"), Ok(Some(String::from("--host"))));
    assert_eq!(find_value_for(&args, "--user"), Ok(None));
    assert_eq!(find_value_for(&args, "beta"), Err(MissingValue));
    assert_eq!(find_value_for(&vec![], "--host"), Ok(None));
}

#[test]
fn logger_settings_carry_the_resolved_level() {
    let expected = LoggerSettings {
        level: LogLevel::Debug,
        log_to_file: true,
        print_message: true,
        duplicate_to_console: true,
        suppress_timestamp: true,
    };
    assert_eq!(LoggerInitializerWrapperReal::settings(&strings(&["--log_level", "debug"])), Ok(expected));
    assert_eq!(LoggerInitializerWrapperReal::settings(&strings(&["glorp"])).unwrap().level, LogLevel::Warn);
    assert_eq!(LoggerInitializerWrapperReal::settings(&strings(&["--log_level"])), Err(LogLevelError::MissingValue));
    assert_eq!(
        LoggerInitializerWrapperReal::settings(&strings(&["--log_level", "blooga"])),
        Err(LogLevelError::InvalidValue(String::from("blooga")))
    );
}
