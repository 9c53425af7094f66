use away::cli::{
    command_exit_code, duration_input_error_message, select_command, time_input_error_message,
    Command,
};

fn args(list: &[&str]) -> Vec<String> {
    list.iter().map(|s| s.to_string()).collect()
}

#[test]
fn time_flag_takes_the_next_argument() {
    match select_command(&args(&["away", "-t", "5:30:pm"])) {
        Command::RunUntilTime { arg } => assert_eq!(arg, "5:30:pm"),
        _ => panic!("expected a time run"),
    }
}

#[test]
fn duration_flag_takes_the_next_argument() {
    match select_command(&args(&["away", "-d", "1:15:30"])) {
        Command::RunForDuration { arg } => assert_eq!(arg, "1:15:30"),
        _ => panic!("expected a duration run"),
    }
}

#[test]
fn run_flag_without_argument_is_missing() {
    assert!(matches!(
        select_command(&args(&["away", "-t"])),
        Command::MissingTimeArg
    ));
    assert!(matches!(
        select_command(&args(&["away", "-d"])),
        Command::MissingDurationArg
    ));
}

#[test]
fn first_match_wins_in_flag_order() {
    assert!(matches!(
        select_command(&args(&["away", "-i", "-t", "5:30:pm"])),
        Command::RunUntilTime { .. }
    ));
    assert!(matches!(
        select_command(&args(&["away", "-i", "-d", "1:00:00"])),
        Command::RunForDuration { .. }
    ));
    assert!(matches!(
        select_command(&args(&["away", "-h", "-i"])),
        Command::RunIndefinitely
    ));
}

#[test]
fn plain_flags_select_their_commands() {
    assert!(matches!(
        select_command(&args(&["away", "-i"])),
        Command::RunIndefinitely
    ));
    assert!(matches!(
        select_command(&args(&["away", "-h"])),
        Command::ShowHelp
    ));
    assert!(matches!(
        select_command(&args(&["away", "-v"])),
        Command::ShowVersion
    ));
}

#[test]
fn anything_else_is_invalid() {
    assert!(matches!(
        select_command(&args(&["away"])),
        Command::Invalid
    ));
    assert!(matches!(
        select_command(&args(&["away", "-x"])),
        Command::Invalid
    ));
}

#[test]
fn parse_error_messages_name_the_expected_format() {
    assert_eq!(
        time_input_error_message(),
        "Could not parse time input. Example: 10:00:am"
    );
    assert_eq!(
        duration_input_error_message(),
        "Could not parse duration input. Example: 1:15:30"
    );
}

#[test]
fn exit_codes_are_nonzero_only_for_errors() {
    assert_eq!(command_exit_code(&select_command(&args(&["away", "-i"]))), 0);
    assert_eq!(command_exit_code(&select_command(&args(&["away", "-h"]))), 0);
    assert_eq!(command_exit_code(&select_command(&args(&["away", "-v"]))), 0);
    assert_eq!(
        command_exit_code(&select_command(&args(&["away", "-t", "5:30:pm"]))),
        0
    );
    assert_eq!(command_exit_code(&select_command(&args(&["away", "-t"]))), 1);
    assert_eq!(command_exit_code(&select_command(&args(&["away", "-d"]))), 1);
    assert_eq!(command_exit_code(&select_command(&args(&["away", "-x"]))), 1);
}
