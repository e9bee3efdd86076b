use eh::nix_command::{command_specs, CommandKind, NixCommand, UnknownCommand};

#[test]
fn schema_parses_supported_commands() {
    for spec in command_specs() {
        let kind = CommandKind::try_from(spec.name).unwrap();
        assert_eq!(kind.as_str(), spec.name);
    }
}

#[test]
fn schema_rejects_unknown_commands() {
    assert_eq!(
        CommandKind::try_from("repl"),
        Err(UnknownCommand {
            command: "repl".to_string(),
        })
    );
}

#[test]
fn argv_is_deterministic_and_schema_driven() {
    let argv = NixCommand::new(CommandKind::Build)
        .arg("nixpkgs#hello")
        .impure(true)
        .argv();
    assert_eq!(
        argv,
        ["nix", "build", "--print-build-logs", "--impure", "nixpkgs#hello"]
    );
}

#[test]
fn no_build_output_suppresses_print_build_logs() {
    let argv = NixCommand::new(CommandKind::Build)
        .arg("--no-build-output")
        .argv();
    assert_eq!(argv, ["nix", "build", "--no-build-output"]);
}

#[test]
fn eval_defaults_to_quiet_schema() {
    assert_eq!(NixCommand::new(CommandKind::Eval).argv(), ["nix", "eval"]);
}

#[test]
fn interactive_defaults_come_from_schema() {
    assert!(NixCommand::new(CommandKind::Run).is_interactive());
    assert!(NixCommand::new(CommandKind::Shell).is_interactive());
    assert!(NixCommand::new(CommandKind::Develop).is_interactive());
    assert!(!NixCommand::new(CommandKind::Build).is_interactive());
}

#[test]
fn eval_profiler_flags_are_added_to_argv() {
    let argv = NixCommand::new(CommandKind::Eval)
        .arg("nixpkgs#hello")
        .impure(true)
        .eval_profiler("flamegraph")
        .eval_profiler_frequency(9999)
        .eval_profile_file("/tmp/nix.profile")
        .argv();
    assert_eq!(
        argv,
        [
            "nix",
            "eval",
            "--impure",
            "--eval-profiler",
            "flamegraph",
            "--eval-profiler-frequency",
            "9999",
            "--eval-profile-file",
            "/tmp/nix.profile",
            "nixpkgs#hello"
        ]
    );
}

#[test]
fn custom_binary_env_and_args_ref() {
    let extra = vec!["--json".to_string(), "-v".to_string()];
    let pairs = vec![("A".to_string(), "1".to_string())];
    let cmd = NixCommand::new(CommandKind::Flake)
        .binary("/run/nix")
        .args_ref(&extra)
        .env("B", "2")
        .envs(&pairs)
        .print_build_logs(true);
    assert_eq!(cmd.argv(), ["/run/nix", "flake", "--print-build-logs", "--json", "-v"]);
    assert_eq!(
        cmd.env_pairs(),
        &vec![("B".to_string(), "2".to_string()), ("A".to_string(), "1".to_string())]
    );
    assert_eq!(cmd.kind(), CommandKind::Flake);
}

#[test]
fn zero_frequency_renders_as_zero() {
    let argv = NixCommand::new(CommandKind::Eval).eval_profiler_frequency(0).argv();
    assert_eq!(argv, ["nix", "eval", "--eval-profiler-frequency", "0"]);
}

#[test]
fn errors_name_the_subcommand() {
    let cmd = NixCommand::new(CommandKind::Develop);
    assert_eq!(
        cmd.command_failed(),
        eh::nix_command::Error::CommandFailed { command: "develop".to_string() }
    );
    assert_eq!(
        cmd.timeout(),
        eh::nix_command::Error::Timeout { command: "develop".to_string(), seconds: 300 }
    );
}
