use panes::cli::{AppMode, command_id_listing, format_command_failure, parse_arguments, parse_u64};
use panes::command::Command;
use panes::failure::{CommandExecutionError, CommandFailureLevel};
use panes::platform::{CommandInvocation, CommandSource};

fn arguments(values: &[&str]) -> Vec<String> {
    values.iter().map(|value| (*value).to_owned()).collect()
}

#[test]
fn parses_resident_summary_and_help_modes() {
    assert_eq!(parse_arguments(&[]), Ok(AppMode::Resident));
    assert_eq!(
        parse_arguments(&arguments(&["--runtime-summary"])),
        Ok(AppMode::RuntimeSummary)
    );
    assert_eq!(parse_arguments(&arguments(&["--help"])), Ok(AppMode::Help));
}

#[test]
fn parses_command_and_delay_modes() {
    assert_eq!(
        parse_arguments(&arguments(&["exec", "left-half"])),
        Ok(AppMode::Exec {
            command: Command::LeftHalf,
            delay_ms: 0,
        })
    );
    assert_eq!(
        parse_arguments(&arguments(&["exec", "--delay", "500", "top-right"])),
        Ok(AppMode::Exec {
            command: Command::TopRight,
            delay_ms: 500,
        })
    );
}

#[test]
fn lists_every_stable_command_id() {
    let listing = command_id_listing();

    assert_eq!(listing.lines().count(), Command::ALL.len());
    for command in Command::ALL {
        assert!(listing.lines().any(|id| id == command.id()));
    }
}

#[test]
fn rejects_unknown_commands_and_invalid_delays() {
    let unknown = parse_arguments(&arguments(&["exec", "not-a-command"]))
        .expect_err("unknown command should fail");
    assert!(unknown.contains("unknown command id 'not-a-command'"));
    assert!(unknown.contains("panes exec --list"));

    let delay = parse_arguments(&arguments(&["exec", "--delay", "-1", "left-half"]))
        .expect_err("negative delay should fail");
    assert!(delay.contains("non-negative milliseconds"));
}

#[test]
fn command_failure_is_one_parseable_record() {
    let invocation = CommandInvocation {
        command: Command::Maximize,
        source: CommandSource::Keyboard,
    };

    let record = format_command_failure(
        invocation,
        &CommandExecutionError::NoFocusedWindow,
        CommandFailureLevel::Debug,
    );

    assert_eq!(
        record,
        "event=command_failure level=debug command=maximize source=Keyboard error=\"no focused window\""
    );
}

#[test]
fn cli_failure_record_keeps_its_source() {
    let invocation = CommandInvocation {
        command: Command::LeftHalf,
        source: CommandSource::Cli,
    };

    let record = format_command_failure(
        invocation,
        &CommandExecutionError::NoFocusedWindow,
        CommandFailureLevel::Debug,
    );

    assert!(record.contains("command=left-half source=Cli"));
}

#[test]
fn error_level_records_quote_platform_messages() {
    let invocation = CommandInvocation {
        command: Command::Grow,
        source: CommandSource::Menu,
    };

    let record = format_command_failure(
        invocation,
        &CommandExecutionError::Platform(panes::platform::PlatformError::Native("bad \"frame\"".to_owned())),
        CommandFailureLevel::Error,
    );

    assert_eq!(
        record,
        "event=command_failure level=error command=grow source=Menu error=\"platform error: Native(\\\"bad \\\\\\\"frame\\\\\\\"\\\")\""
    );
}

#[test]
fn listing_is_one_id_per_line_in_menu_order() {
    let listing = command_id_listing();
    let expected: String = Command::ALL.iter().map(|command| format!("{}\n", command.id())).collect();

    assert_eq!(listing, expected);
    assert!(listing.starts_with("left-half\nright-half\ncenter-half\n"));
    assert!(listing.ends_with("grow\nshrink\n"));
}

#[test]
fn every_command_id_runs_that_command_without_delay() {
    for &command in Command::ALL {
        assert_eq!(
            parse_arguments(&arguments(&["exec", command.id()])),
            Ok(AppMode::Exec { command, delay_ms: 0 })
        );
    }
}

#[test]
fn exec_list_help_and_short_help() {
    assert_eq!(parse_arguments(&arguments(&["exec", "--list"])), Ok(AppMode::ListCommands));
    assert_eq!(parse_arguments(&arguments(&["exec", "--help"])), Ok(AppMode::Help));
    assert_eq!(parse_arguments(&arguments(&["exec", "-h"])), Ok(AppMode::Help));
    assert_eq!(parse_arguments(&arguments(&["-h"])), Ok(AppMode::Help));
}

#[test]
fn argument_errors_name_the_arguments() {
    assert_eq!(
        parse_arguments(&arguments(&["--verbose", "now"])),
        Err("unrecognized arguments: --verbose now".to_owned())
    );
    assert_eq!(
        parse_arguments(&arguments(&["exec"])),
        Err("missing command id; run `panes exec --list` to list commands".to_owned())
    );
    assert_eq!(
        parse_arguments(&arguments(&["exec", "a", "b"])),
        Err("invalid exec arguments: a b; run `panes exec --help` for usage".to_owned())
    );
    assert_eq!(
        parse_arguments(&arguments(&["exec", "--delay", "12x", "grow"])),
        Err("invalid delay '12x'; expected non-negative milliseconds".to_owned())
    );
    assert_eq!(
        parse_arguments(&arguments(&["exec", "--delay", "5", "nope"])),
        Err("unknown command id 'nope'; run `panes exec --list` to list commands".to_owned())
    );
}

#[test]
fn delays_read_like_unsigned_integers() {
    assert_eq!(parse_u64("0"), Some(0));
    assert_eq!(parse_u64("+42"), Some(42));
    assert_eq!(parse_u64("18446744073709551615"), Some(u64::MAX));
    assert_eq!(parse_u64("18446744073709551616"), None);
    assert_eq!(parse_u64(""), None);
    assert_eq!(parse_u64("+"), None);
    assert_eq!(parse_u64("-0"), None);
    assert_eq!(parse_u64(" 1"), None);
    for text in ["7", "+9", "00012", "99999999999999999999", "1_000", "x"] {
        assert_eq!(parse_u64(text), text.parse::<u64>().ok(), "{text}");
    }
}
