use seris::cli::{command_of, parse, usage, Command};

#[test]
fn parses_known_commands() {
    assert_eq!(
        parse(["self-update".to_string()].into_iter()),
        Command::SelfUpdate
    );
    assert_eq!(parse(["--help".to_string()].into_iter()), Command::Help);
    assert_eq!(parse(["help".to_string()].into_iter()), Command::Help);
}

#[test]
fn defaults_to_running_the_bot() {
    assert_eq!(parse(std::iter::empty()), Command::RunBot);
}

#[test]
fn captures_unknown_command() {
    assert_eq!(
        parse(["something-else".to_string()].into_iter()),
        Command::Unknown("something-else".to_string())
    );
}

#[test]
fn short_help_flag_and_extra_arguments() {
    assert_eq!(command_of(Some("-h".to_string())), Command::Help);
    assert_eq!(
        parse(["self-update".to_string(), "extra".to_string()].into_iter()),
        Command::SelfUpdate
    );
    assert_eq!(
        parse(["HELP".to_string()].into_iter()),
        Command::Unknown("HELP".to_string())
    );
}

#[test]
fn usage_mentions_self_update() {
    assert_eq!(
        usage(),
        "Usage: seris [self-update]\n\nCommands:\n  self-update   Download and install the latest release binary\n"
    );
}
