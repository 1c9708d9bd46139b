use mirador::cli::{command_of, confirmed, help_text, parse_args, Args, ArgsError, Command, HELP};

fn parse(args: &[&str]) -> Result<Args, ArgsError> {
    parse_args(&args.iter().map(|s| (*s).to_string()).collect())
}

#[test]
fn no_arguments_is_valid() {
    let args = parse(&[]).unwrap();
    assert!(args.config.is_none());
    assert!(!args.help);
}

#[test]
fn flags_parse_in_both_short_and_long_form() {
    assert!(parse(&["-h"]).unwrap().help);
    assert!(parse(&["--help"]).unwrap().help);
    assert!(parse(&["-V"]).unwrap().version);
    assert!(parse(&["--version"]).unwrap().version);
    assert!(parse(&["--print-config"]).unwrap().print_config);
    assert!(parse(&["--config-path"]).unwrap().show_config_path);
    assert!(parse(&["--migrate-config"]).unwrap().migrate_config);
    assert!(parse(&["--reset-config"]).unwrap().reset_config);
    assert!(parse(&["--factory-reset"]).unwrap().factory_reset);
    assert!(!parse(&["--reset-config"]).unwrap().factory_reset);
    assert!(!parse(&["--factory-reset"]).unwrap().reset_config);
    assert!(parse(&["-y"]).unwrap().assume_yes);
    assert!(parse(&["--yes"]).unwrap().assume_yes);
}

#[test]
fn yes_on_its_own_resets_nothing() {
    let args = parse(&["--yes"]).unwrap();
    assert!(args.assume_yes);
    assert!(!args.reset_config);
}

#[test]
fn config_accepts_separate_and_joined_values() {
    assert_eq!(
        parse(&["-c", "/tmp/a.toml"]).unwrap().config,
        Some("/tmp/a.toml".to_string())
    );
    assert_eq!(
        parse(&["--config", "/tmp/b.toml"]).unwrap().config,
        Some("/tmp/b.toml".to_string())
    );
    assert_eq!(
        parse(&["--config=/tmp/c.toml"]).unwrap().config,
        Some("/tmp/c.toml".to_string())
    );
}

#[test]
fn a_config_flag_without_a_value_explains_itself() {
    let err = parse(&["--config"]).expect_err("must fail");
    assert!(err.message().contains("needs a path"), "got: {}", err.message());
}

#[test]
fn unknown_arguments_point_at_help() {
    let err = parse(&["--wat"]).expect_err("must fail");
    assert!(err.message().contains("--help"), "got: {}", err.message());
}

#[test]
fn help_text_documents_every_flag_the_parser_accepts() {
    for flag in [
        "--config",
        "--print-config",
        "--config-path",
        "--migrate-config",
        "--reset-config",
        "--yes",
        "--help",
        "--version",
    ] {
        assert!(HELP.contains(flag), "{flag} is undocumented");
    }
}

#[test]
fn each_refusal_names_what_was_wrong() {
    assert_eq!(
        parse(&["-c"]),
        Err(ArgsError::MissingValue("-c".to_string()))
    );
    assert_eq!(
        parse(&["--wat"]),
        Err(ArgsError::Unrecognised("--wat".to_string()))
    );
    assert_eq!(
        parse(&["--help", "extra"]),
        Err(ArgsError::Unrecognised("extra".to_string()))
    );
}

#[test]
fn help_comes_first_and_the_dashboard_runs_when_nothing_else_is_asked() {
    assert_eq!(command_of(&parse(&["--version", "--help"]).unwrap()), Command::Help);
    assert_eq!(command_of(&parse(&["--yes"]).unwrap()), Command::Run);
    assert_eq!(
        command_of(&parse(&["--factory-reset", "--reset-config"]).unwrap()),
        Command::ResetConfig
    );
    assert_eq!(command_of(&parse(&[]).unwrap()), Command::Run);
}

#[test]
fn only_an_explicit_yes_confirms() {
    assert!(confirmed("y\n"));
    assert!(confirmed("  YES "));
    assert!(!confirmed(""));
    assert!(!confirmed("yeah"));
    assert!(!confirmed("n"));
}

#[test]
fn the_help_text_names_the_program_and_its_version() {
    let text = help_text("1.2.3");
    assert!(text.starts_with("mirador 1.2.3"));
    assert!(text.ends_with(HELP));
}
