use xees::cli::CliCommand;
use xees::cli::CliError;
use xees::cli::DEFAULT_DISABLE_SECS;
use xees::cli::parse_args;
use xees::state::SuppressionState;
use xees::text::parse_u64;

fn args(words: &[&str]) -> Vec<String> {
    words.iter().map(|w| w.to_string()).collect()
}

#[test]
fn no_arguments_runs_the_daemon() {
    assert_eq!(parse_args(&args(&[])), Ok(CliCommand::RunDaemon));
}

#[test]
fn enable_word_parses() {
    assert_eq!(parse_args(&args(&["enable"])), Ok(CliCommand::Enable));
}

#[test]
fn status_word_parses() {
    assert_eq!(parse_args(&args(&["status"])), Ok(CliCommand::Status));
}

#[test]
fn quit_word_parses() {
    assert_eq!(parse_args(&args(&["quit"])), Ok(CliCommand::Quit));
}

#[test]
fn bare_disable_uses_the_default_window() {
    assert_eq!(DEFAULT_DISABLE_SECS, 3600);
    assert_eq!(
        parse_args(&args(&["disable"])),
        Ok(CliCommand::Disable { seconds: 3600 })
    );
}

#[test]
fn disable_with_duration_parses() {
    assert_eq!(
        parse_args(&args(&["disable", "120"])),
        Ok(CliCommand::Disable { seconds: 120 })
    );
}

#[test]
fn disable_with_malformed_duration_is_a_usage_error() {
    assert_eq!(
        parse_args(&args(&["disable", "12x"])),
        Err(CliError::MalformedDuration)
    );
    assert_eq!(
        parse_args(&args(&["disable", ""])),
        Err(CliError::MalformedDuration)
    );
    assert_eq!(
        parse_args(&args(&["disable", "-3"])),
        Err(CliError::MalformedDuration)
    );
}

#[test]
fn disable_with_overflowing_duration_is_a_usage_error() {
    assert_eq!(
        parse_args(&args(&["disable", "18446744073709551616"])),
        Err(CliError::MalformedDuration)
    );
}

#[test]
fn disable_with_largest_duration_parses() {
    assert_eq!(
        parse_args(&args(&["disable", "18446744073709551615"])),
        Ok(CliCommand::Disable { seconds: u64::MAX })
    );
}

#[test]
fn unknown_command_word_is_a_usage_error() {
    assert_eq!(parse_args(&args(&["restart"])), Err(CliError::UnknownCommand));
}

#[test]
fn trailing_arguments_are_ignored() {
    assert_eq!(parse_args(&args(&["enable", "now"])), Ok(CliCommand::Enable));
    assert_eq!(
        parse_args(&args(&["disable", "5", "junk"])),
        Ok(CliCommand::Disable { seconds: 5 })
    );
}

#[test]
fn parse_u64_reads_plain_numerals() {
    assert_eq!(parse_u64("0"), Some(0));
    assert_eq!(parse_u64("42"), Some(42));
    assert_eq!(parse_u64("007"), Some(7));
    assert_eq!(parse_u64("18446744073709551615"), Some(u64::MAX));
}

#[test]
fn parse_u64_rejects_everything_else() {
    assert_eq!(parse_u64(""), None);
    assert_eq!(parse_u64("abc"), None);
    assert_eq!(parse_u64("+42"), None);
    assert_eq!(parse_u64(" 42"), None);
    assert_eq!(parse_u64("4 2"), None);
    assert_eq!(parse_u64("18446744073709551616"), None);
}

#[test]
fn scenario_bare_disable_then_status_reports_disabled() {
    let command = parse_args(&args(&["disable"]));
    let mut s = SuppressionState::new();
    match command {
        Ok(CliCommand::Disable { seconds }) => {
            s.disable(0, Some(seconds));
        }
        other => panic!("unexpected parse: {:?}", other),
    }
    assert_eq!(s.status(), "Disabled");
    assert_eq!(s.expiry, Some(3600));
}
