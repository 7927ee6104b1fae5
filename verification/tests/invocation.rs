use sentinel_rs::invocation::{
    parse_invocation, Invocation, EXIT_OK, EXIT_USAGE, MISSING_COMMAND, USAGE, VERSION,
};

fn args(words: &[&str]) -> Vec<String> {
    words.iter().map(|w| w.to_string()).collect()
}

fn command(words: &[&str]) -> String {
    match parse_invocation(&args(words)) {
        Invocation::Run(command) => command,
        other => panic!("not a command: {:?}", other),
    }
}

#[test]
fn help_does_not_require_env() {
    let invocation = parse_invocation(&args(&["--help"]));
    assert!(matches!(invocation, Invocation::Help));
    assert_eq!(invocation.exit_code(), Some(0));
    assert!(!invocation.is_usage_error());
    assert!(USAGE.contains("Usage: sentinel-rs"));
}

#[test]
fn missing_args_exits_with_usage() {
    let invocation = parse_invocation(&[]);
    assert!(matches!(invocation, Invocation::NoArguments));
    assert_eq!(invocation.exit_code(), Some(2));
    assert!(invocation.is_usage_error());
    assert!(USAGE.contains("Usage: sentinel-rs"));
}

#[test]
fn missing_command_after_double_dash_exits_2() {
    let invocation = parse_invocation(&args(&["--"]));
    assert!(matches!(invocation, Invocation::NoCommand));
    assert_eq!(invocation.exit_code(), Some(2));
    assert!(invocation.is_usage_error());
    assert!(MISSING_COMMAND.contains("Missing command after --."));
}

#[test]
fn short_flags_are_recognised() {
    assert!(matches!(parse_invocation(&args(&["-h"])), Invocation::Help));
    let version = parse_invocation(&args(&["-V"]));
    assert!(matches!(version, Invocation::Version));
    assert_eq!(version.exit_code(), Some(EXIT_OK));
    assert!(matches!(parse_invocation(&args(&["--version"])), Invocation::Version));
    assert_eq!(VERSION, "0.1.0");
    assert_eq!(EXIT_USAGE, 2);
}

#[test]
fn words_are_joined_with_single_spaces() {
    assert_eq!(command(&["--", "ls", "-la"]), "ls -la");
    assert_eq!(command(&["ls", "-la"]), "ls -la");
    assert_eq!(command(&["--", "echo hello"]), "echo hello");
    assert_eq!(command(&["--", "exit", "101"]), "exit 101");
    assert_eq!(command(&["true"]), "true");
}

#[test]
fn a_flag_behind_the_separator_is_a_command() {
    assert_eq!(command(&["--", "--help"]), "--help");
    assert_eq!(command(&["--", "-V"]), "-V");
    assert_eq!(command(&["--", "--"]), "--");
}

#[test]
fn a_flag_with_company_is_a_command() {
    assert_eq!(command(&["--help", "me"]), "--help me");
    assert_eq!(command(&["-V", "-h"]), "-V -h");
    assert_eq!(command(&["ls", "--"]), "ls --");
}

#[test]
fn only_a_leading_separator_is_dropped() {
    assert_eq!(command(&["--", "a", "--", "b"]), "a -- b");
    assert_eq!(command(&["a", "--", "b"]), "a -- b");
}

#[test]
fn an_empty_word_is_still_a_command() {
    assert_eq!(command(&[""]), "");
    assert_eq!(command(&["--", ""]), "");
    assert_eq!(command(&["a", "", "b"]), "a  b");
    let run = parse_invocation(&args(&["x"]));
    assert_eq!(run.exit_code(), None);
    assert!(!run.is_usage_error());
}

#[test]
fn usage_text_shows_the_examples() {
    assert_eq!(
        USAGE,
        "Usage: sentinel-rs [--help] [--version] [-- <command>...]\n\
Runs a command via bash -c and sends Telegram notifications.\n\n\
Examples:\n  sentinel-rs -- \"echo hello\"\n  sentinel-rs -- ls -la\n  sentinel-rs -- --help   # runs a command named \"--help\""
    );
}

#[test]
fn each_invocation_prints_its_lines() {
    assert_eq!(parse_invocation(&args(&["--help"])).lines(), vec![USAGE.to_string()]);
    assert_eq!(parse_invocation(&[]).lines(), vec![USAGE.to_string()]);
    assert_eq!(parse_invocation(&args(&["-V"])).lines(), vec!["sentinel-rs 0.1.0".to_string()]);
    assert_eq!(
        parse_invocation(&args(&["--"])).lines(),
        vec!["Missing command after --.".to_string(), USAGE.to_string()]
    );
    assert!(parse_invocation(&args(&["ls"])).lines().is_empty());
}
